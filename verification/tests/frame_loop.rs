//! Scenario tests that drive the frame-loop state machine against a
//! scripted runner, counting the calls it issues.

use xr_frame_loop::config::{BlendMode, FillColor, LoopConfig, ReferenceSpaceKind};
use xr_frame_loop::driver::{CallOutcome, FrameLoop, FrameState, RuntimeCall};
use xr_frame_loop::lifecycle::{LifecycleEvent, SessionState};

fn test_config(warmup_frames: u32) -> LoopConfig {
    LoopConfig {
        fill_color: FillColor {
            red: 0,
            green: 0,
            blue: 0,
            alpha: 220,
        },
        premultiplied_alpha: false,
        warmup_frames,
        reference_space: ReferenceSpaceKind::Local,
        blend_mode: BlendMode::AlphaBlend,
    }
}

fn frame(time: i64, period: i64) -> FrameState {
    FrameState {
        predicted_display_time: time,
        predicted_display_period: period,
        should_render: true,
    }
}

/// Counts of the calls a scenario issued.
#[derive(Default)]
struct CallCounts {
    wait_frame: u32,
    acquire: u32,
    render: u32,
    release: u32,
    end_frame: u32,
}

/// Drive one running frame to completion, from the WaitFrame call already
/// issued, handing out `image_index` and reporting `ready` from the image
/// wait. Returns the call issued after the frame ended (always PollEvent).
fn run_frame(
    fl: &mut FrameLoop,
    time: i64,
    image_index: u32,
    ready: bool,
    counts: &mut CallCounts,
) -> RuntimeCall {
    let mut r = fl.step(CallOutcome::FrameWaited {
        frame: frame(time, 11),
    });
    assert!(matches!(r, RuntimeCall::BeginFrame));
    r = fl.step(CallOutcome::FrameBegun);
    if matches!(r, RuntimeCall::AcquireImage) {
        counts.acquire += 1;
        r = fl.step(CallOutcome::ImageAcquired { image_index });
        assert!(matches!(r, RuntimeCall::WaitImage));
        r = fl.step(CallOutcome::ImageWaited { ready });
        if ready {
            match r {
                RuntimeCall::RenderImage { image_index: idx } => {
                    assert_eq!(idx, image_index);
                    counts.render += 1;
                }
                _ => panic!("expected a render after a ready image"),
            }
            r = fl.step(CallOutcome::Rendered);
        }
        assert!(matches!(r, RuntimeCall::ReleaseImage));
        counts.release += 1;
        r = fl.step(CallOutcome::Released);
    }
    match r {
        RuntimeCall::LocateViews { display_time } => assert_eq!(display_time, time),
        _ => panic!("expected the pose locate before composition"),
    }
    r = fl.step(CallOutcome::ViewsLocated);
    match r {
        RuntimeCall::EndFrame { ref layer } => {
            counts.end_frame += 1;
            assert_eq!(layer.display_time, time);
            assert_eq!(layer.views.len(), 2);
        }
        _ => panic!("expected the composition submit"),
    }
    fl.step(CallOutcome::FrameEnded { ok: true })
}

#[test]
fn ready_event_begins_session() {
    let mut fl = FrameLoop::new(test_config(16), 1024, 1024);
    assert!(!fl.running);
    let r = fl.step(CallOutcome::Polled {
        event: Some(LifecycleEvent::StateChanged(SessionState::Ready)),
    });
    assert!(matches!(r, RuntimeCall::BeginSession));
    // Not running yet: only a successful begin raises the flag.
    assert!(!fl.running);
    let r = fl.step(CallOutcome::SessionBegun { ok: true });
    assert!(matches!(r, RuntimeCall::PollEvent));
    assert!(fl.running);
}

#[test]
fn stopping_states_stop_running() {
    for state in [
        SessionState::Stopping,
        SessionState::LossPending,
        SessionState::Idle,
        SessionState::Exiting,
    ] {
        let mut fl = FrameLoop::new(test_config(16), 1024, 1024);
        fl.step(CallOutcome::Polled {
            event: Some(LifecycleEvent::StateChanged(SessionState::Ready)),
        });
        fl.step(CallOutcome::SessionBegun { ok: true });
        assert!(fl.running);
        let r = fl.step(CallOutcome::Polled {
            event: Some(LifecycleEvent::StateChanged(state)),
        });
        assert!(matches!(r, RuntimeCall::PollEvent));
        assert!(!fl.running);
    }
}

#[test]
fn passthrough_states_keep_running() {
    for state in [
        SessionState::Synchronized,
        SessionState::Visible,
        SessionState::Focused,
    ] {
        let mut fl = FrameLoop::new(test_config(16), 1024, 1024);
        fl.step(CallOutcome::Polled {
            event: Some(LifecycleEvent::StateChanged(SessionState::Ready)),
        });
        fl.step(CallOutcome::SessionBegun { ok: true });
        let r = fl.step(CallOutcome::Polled {
            event: Some(LifecycleEvent::StateChanged(state)),
        });
        assert!(matches!(r, RuntimeCall::PollEvent));
        assert!(fl.running);
    }
}

#[test]
fn unsupported_events_abort() {
    let mut fl = FrameLoop::new(test_config(16), 1024, 1024);
    let r = fl.step(CallOutcome::Polled {
        event: Some(LifecycleEvent::EventsLost),
    });
    assert!(matches!(r, RuntimeCall::Abort));

    let mut fl = FrameLoop::new(test_config(16), 1024, 1024);
    let r = fl.step(CallOutcome::Polled {
        event: Some(LifecycleEvent::InstanceLossPending),
    });
    assert!(matches!(r, RuntimeCall::Abort));
}

#[test]
fn refused_session_begin_aborts() {
    let mut fl = FrameLoop::new(test_config(16), 1024, 1024);
    let r = fl.step(CallOutcome::Polled {
        event: Some(LifecycleEvent::StateChanged(SessionState::Ready)),
    });
    assert!(matches!(r, RuntimeCall::BeginSession));
    let r = fl.step(CallOutcome::SessionBegun { ok: false });
    assert!(matches!(r, RuntimeCall::Abort));
    assert!(!fl.running);
}

#[test]
fn not_running_sleeps_without_frame_calls() {
    let mut fl = FrameLoop::new(test_config(16), 1024, 1024);
    let mut wait_frame_calls = 0;
    // Several idle iterations: drain the queue, sleep, poll again.
    let mut r = fl.step(CallOutcome::Polled { event: None });
    for _ in 0..5 {
        match r {
            RuntimeCall::SleepBriefly => {}
            RuntimeCall::WaitFrame => wait_frame_calls += 1,
            ref other => panic!("unexpected idle call: {other:?}"),
        }
        r = fl.step(CallOutcome::Slept);
        assert!(matches!(r, RuntimeCall::PollEvent));
        r = fl.step(CallOutcome::Polled { event: None });
    }
    assert_eq!(wait_frame_calls, 0);
}

#[test]
fn ready_scenario_first_frame() {
    // READY arrives, the session begins, the first frame acquires image 0,
    // renders, releases, and submits composition at time 1000; a STOPPING
    // event then stops the loop, which sleeps instead of waiting a frame.
    let mut fl = FrameLoop::new(test_config(16), 1024, 1024);
    let r = fl.step(CallOutcome::Polled {
        event: Some(LifecycleEvent::StateChanged(SessionState::Ready)),
    });
    assert!(matches!(r, RuntimeCall::BeginSession));
    let r = fl.step(CallOutcome::SessionBegun { ok: true });
    assert!(matches!(r, RuntimeCall::PollEvent));
    assert!(fl.running);
    let r = fl.step(CallOutcome::Polled { event: None });
    assert!(matches!(r, RuntimeCall::WaitFrame));

    let mut counts = CallCounts::default();
    let r = run_frame(&mut fl, 1000, 0, true, &mut counts);
    assert!(matches!(r, RuntimeCall::PollEvent));
    assert_eq!(counts.acquire, 1);
    assert_eq!(counts.render, 1);
    assert_eq!(counts.release, 1);
    assert_eq!(counts.end_frame, 1);
    assert_eq!(fl.frames_rendered, 1);

    let r = fl.step(CallOutcome::Polled {
        event: Some(LifecycleEvent::StateChanged(SessionState::Stopping)),
    });
    assert!(matches!(r, RuntimeCall::PollEvent));
    assert!(!fl.running);
    let r = fl.step(CallOutcome::Polled { event: None });
    assert!(matches!(r, RuntimeCall::SleepBriefly));
}

#[test]
fn warmup_bounds_content_production() {
    // With warm-up count 2, exactly the first two frames acquire, render
    // and release; later frames only compose.
    let mut fl = FrameLoop::new(test_config(2), 640, 480);
    fl.step(CallOutcome::Polled {
        event: Some(LifecycleEvent::StateChanged(SessionState::Ready)),
    });
    fl.step(CallOutcome::SessionBegun { ok: true });
    let mut counts = CallCounts::default();
    for k in 0..5 {
        let r = fl.step(CallOutcome::Polled { event: None });
        assert!(matches!(r, RuntimeCall::WaitFrame));
        counts.wait_frame += 1;
        let r = run_frame(&mut fl, 1000 + k, (k % 2) as u32, true, &mut counts);
        assert!(matches!(r, RuntimeCall::PollEvent));
    }
    assert_eq!(counts.wait_frame, 5);
    assert_eq!(counts.acquire, 2);
    assert_eq!(counts.render, 2);
    assert_eq!(counts.release, 2);
    assert_eq!(counts.end_frame, 5);
    assert_eq!(fl.frames_rendered, 2);
}

#[test]
fn warmup_zero_never_acquires() {
    // Warm-up count 0: no acquire and no render ever, composition on every
    // running frame.
    let mut fl = FrameLoop::new(test_config(0), 640, 480);
    fl.step(CallOutcome::Polled {
        event: Some(LifecycleEvent::StateChanged(SessionState::Ready)),
    });
    fl.step(CallOutcome::SessionBegun { ok: true });
    let mut counts = CallCounts::default();
    for k in 0..3 {
        let r = fl.step(CallOutcome::Polled { event: None });
        assert!(matches!(r, RuntimeCall::WaitFrame));
        let r = run_frame(&mut fl, 2000 + k, 0, true, &mut counts);
        assert!(matches!(r, RuntimeCall::PollEvent));
    }
    assert_eq!(counts.acquire, 0);
    assert_eq!(counts.render, 0);
    assert_eq!(counts.release, 0);
    assert_eq!(counts.end_frame, 3);
}

#[test]
fn image_wait_timeout_still_composes() {
    // A timed-out image wait releases the image without rendering and the
    // frame's composition is still submitted: a degraded frame, not a
    // skipped one.
    let mut fl = FrameLoop::new(test_config(16), 800, 600);
    fl.step(CallOutcome::Polled {
        event: Some(LifecycleEvent::StateChanged(SessionState::Ready)),
    });
    fl.step(CallOutcome::SessionBegun { ok: true });
    let r = fl.step(CallOutcome::Polled { event: None });
    assert!(matches!(r, RuntimeCall::WaitFrame));
    let mut counts = CallCounts::default();
    let r = run_frame(&mut fl, 3000, 1, false, &mut counts);
    assert!(matches!(r, RuntimeCall::PollEvent));
    assert_eq!(counts.acquire, 1);
    assert_eq!(counts.render, 0);
    assert_eq!(counts.release, 1);
    assert_eq!(counts.end_frame, 1);
    // The timed-out frame did not consume a warm-up slot.
    assert_eq!(fl.frames_rendered, 0);
}

#[test]
fn acquires_alternate_with_releases() {
    // Over many frames, every acquire is released exactly once before the
    // next acquire.
    let mut fl = FrameLoop::new(test_config(4), 640, 480);
    fl.step(CallOutcome::Polled {
        event: Some(LifecycleEvent::StateChanged(SessionState::Ready)),
    });
    fl.step(CallOutcome::SessionBegun { ok: true });
    let mut outstanding = 0i32;
    for k in 0..6 {
        let mut r = fl.step(CallOutcome::Polled { event: None });
        assert!(matches!(r, RuntimeCall::WaitFrame));
        r = fl.step(CallOutcome::FrameWaited {
            frame: frame(4000 + k, 11),
        });
        loop {
            match r {
                RuntimeCall::AcquireImage => {
                    assert_eq!(outstanding, 0);
                    outstanding += 1;
                    r = fl.step(CallOutcome::ImageAcquired { image_index: 0 });
                }
                RuntimeCall::ReleaseImage => {
                    assert_eq!(outstanding, 1);
                    outstanding -= 1;
                    r = fl.step(CallOutcome::Released);
                }
                RuntimeCall::BeginFrame => r = fl.step(CallOutcome::FrameBegun),
                RuntimeCall::WaitImage => r = fl.step(CallOutcome::ImageWaited { ready: true }),
                RuntimeCall::RenderImage { .. } => r = fl.step(CallOutcome::Rendered),
                RuntimeCall::LocateViews { .. } => r = fl.step(CallOutcome::ViewsLocated),
                RuntimeCall::EndFrame { .. } => {
                    r = fl.step(CallOutcome::FrameEnded { ok: true });
                    break;
                }
                ref other => panic!("unexpected call in frame: {other:?}"),
            }
        }
        assert!(matches!(r, RuntimeCall::PollEvent));
        assert_eq!(outstanding, 0);
    }
    assert_eq!(fl.frames_rendered, 4);
}

#[test]
fn failed_composition_is_absorbed() {
    // A failed end-frame is logged by the runner and the loop continues.
    let mut fl = FrameLoop::new(test_config(0), 640, 480);
    fl.step(CallOutcome::Polled {
        event: Some(LifecycleEvent::StateChanged(SessionState::Ready)),
    });
    fl.step(CallOutcome::SessionBegun { ok: true });
    let r = fl.step(CallOutcome::Polled { event: None });
    assert!(matches!(r, RuntimeCall::WaitFrame));
    let r = fl.step(CallOutcome::FrameWaited {
        frame: frame(5000, 11),
    });
    assert!(matches!(r, RuntimeCall::BeginFrame));
    let r = fl.step(CallOutcome::FrameBegun);
    assert!(matches!(r, RuntimeCall::LocateViews { .. }));
    let r = fl.step(CallOutcome::ViewsLocated);
    assert!(matches!(r, RuntimeCall::EndFrame { .. }));
    let r = fl.step(CallOutcome::FrameEnded { ok: false });
    assert!(matches!(r, RuntimeCall::PollEvent));
    // The loop is healthy: the next running frame proceeds as usual.
    let r = fl.step(CallOutcome::Polled { event: None });
    assert!(matches!(r, RuntimeCall::WaitFrame));
}
