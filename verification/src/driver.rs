//! The frame-loop state machine. The loop owns no I/O: it tells its runner
//! which runtime call to perform next, the runner performs it and reports
//! the outcome, and the next call follows from the outcome alone. Every
//! call issued is recorded in a ghost trace, over which the protocol the
//! loop owes its runtime is stated and proved.

use vstd::prelude::*;
use crate::composition::{compose_layer, layer_ok, LayerPlan};
use crate::config::LoopConfig;
use crate::lifecycle::{
    classify_event, decision_for, stops_running, LifecycleDecision, LifecycleEvent,
};
use crate::trace::{entry_ok, trace_ok, CallKind, TraceEntry};
use crate::trace::{lemma_count_push, lemma_trace_ok_push};

verus! {

/// Per-frame timing handed back by the runtime's blocking frame-wait call.
#[derive(Clone, Copy, Debug, PartialEq, Eq, Structural)]
pub struct FrameState {
    pub predicted_display_time: i64,
    pub predicted_display_period: i64,
    pub should_render: bool,
}

/// The one call the loop asks its runner to perform next.
#[derive(Debug)]
pub enum RuntimeCall {
    /// Poll the runtime's event queue once, non-blockingly.
    PollEvent,
    /// Ask the runtime to begin the session with the configured view
    /// configuration.
    BeginSession,
    /// Sleep briefly, then resume polling: the bounded-latency idle wait
    /// while the session is not running.
    SleepBriefly,
    /// Block until the runtime says it is time to produce the next frame.
    WaitFrame,
    /// Mark the start of GPU work submission for this frame.
    BeginFrame,
    /// Ask the swapchain which image to write next.
    AcquireImage,
    /// Block (with the runner's timeout policy) until the acquired image is
    /// safe to write.
    WaitImage,
    /// Copy the staging buffer into the acquired image and wait for the
    /// completion fence.
    RenderImage { image_index: u32 },
    /// Return the acquired image to the runtime's pool.
    ReleaseImage,
    /// Resolve the per-eye view poses at the predicted display time.
    LocateViews { display_time: i64 },
    /// Submit the composition layer; failure is logged by the runner, never
    /// fatal.
    EndFrame { layer: LayerPlan },
    /// Fail loudly: an event with no recovery policy arrived, or the
    /// session could not be begun.
    Abort,
}

/// What the runner reports back after performing a call. Calls whose
/// failure is fatal have no failure outcome: the runner aborts instead.
#[derive(Clone, Copy, Debug, PartialEq, Eq, Structural)]
pub enum CallOutcome {
    /// One drained event, or no event: the queue is empty for now.
    Polled { event: Option<LifecycleEvent> },
    /// Whether the runtime accepted the session begin.
    SessionBegun { ok: bool },
    Slept,
    FrameWaited { frame: FrameState },
    FrameBegun,
    ImageAcquired { image_index: u32 },
    /// False when the image wait timed out: the frame degrades, it is not
    /// skipped.
    ImageWaited { ready: bool },
    Rendered,
    Released,
    ViewsLocated,
    /// Whether the runtime accepted the composition; failure is logged by
    /// the runner.
    FrameEnded { ok: bool },
}

/// The loop's control point: which call is outstanding.
#[derive(Clone, Copy, Debug, PartialEq, Eq, Structural)]
pub enum Phase {
    Polling,
    BeginningSession,
    Sleeping,
    WaitingFrame,
    BeginningFrame,
    Acquiring,
    WaitingImage,
    Rendering,
    Releasing,
    Locating,
    EndingFrame,
    Aborted,
}

/// The trace kind of a call.
pub open spec fn kind_of(c: RuntimeCall) -> CallKind {
    match c {
        RuntimeCall::PollEvent => CallKind::Poll,
        RuntimeCall::BeginSession => CallKind::BeginSession,
        RuntimeCall::SleepBriefly => CallKind::Sleep,
        RuntimeCall::WaitFrame => CallKind::WaitFrame,
        RuntimeCall::BeginFrame => CallKind::BeginFrame,
        RuntimeCall::AcquireImage => CallKind::Acquire,
        RuntimeCall::WaitImage => CallKind::WaitImage,
        RuntimeCall::RenderImage { .. } => CallKind::Render,
        RuntimeCall::ReleaseImage => CallKind::Release,
        RuntimeCall::LocateViews { .. } => CallKind::Locate,
        RuntimeCall::EndFrame { .. } => CallKind::EndFrame,
        RuntimeCall::Abort => CallKind::Abort,
    }
}

/// The phase that has a given call outstanding.
pub open spec fn phase_of_call(c: RuntimeCall) -> Phase {
    match c {
        RuntimeCall::PollEvent => Phase::Polling,
        RuntimeCall::BeginSession => Phase::BeginningSession,
        RuntimeCall::SleepBriefly => Phase::Sleeping,
        RuntimeCall::WaitFrame => Phase::WaitingFrame,
        RuntimeCall::BeginFrame => Phase::BeginningFrame,
        RuntimeCall::AcquireImage => Phase::Acquiring,
        RuntimeCall::WaitImage => Phase::WaitingImage,
        RuntimeCall::RenderImage { .. } => Phase::Rendering,
        RuntimeCall::ReleaseImage => Phase::Releasing,
        RuntimeCall::LocateViews { .. } => Phase::Locating,
        RuntimeCall::EndFrame { .. } => Phase::EndingFrame,
        RuntimeCall::Abort => Phase::Aborted,
    }
}

/// Which outcome answers which outstanding call.
pub open spec fn outcome_matches(p: Phase, o: CallOutcome) -> bool {
    match p {
        Phase::Polling => o is Polled,
        Phase::BeginningSession => o is SessionBegun,
        Phase::Sleeping => o is Slept,
        Phase::WaitingFrame => o is FrameWaited,
        Phase::BeginningFrame => o is FrameBegun,
        Phase::Acquiring => o is ImageAcquired,
        Phase::WaitingImage => o is ImageWaited,
        Phase::Rendering => o is Rendered,
        Phase::Releasing => o is Released,
        Phase::Locating => o is ViewsLocated,
        Phase::EndingFrame => o is FrameEnded,
        Phase::Aborted => false,
    }
}

/// Phases inside one frame, between frame begin and frame end.
pub open spec fn in_frame(p: Phase) -> bool {
    ||| p is BeginningFrame
    ||| p is Acquiring
    ||| p is WaitingImage
    ||| p is Rendering
    ||| p is Releasing
    ||| p is Locating
    ||| p is EndingFrame
}

/// Phases during which an acquire has been issued and its release has not.
pub open spec fn image_held(p: Phase) -> bool {
    ||| p is Acquiring
    ||| p is WaitingImage
    ||| p is Rendering
}

/// Steps still owed before the frame's composition is submitted: the
/// timeout path shortens the distance, it never leaves the frame.
pub open spec fn frame_distance(p: Phase) -> int {
    if p is BeginningFrame {
        6
    } else if p is Acquiring {
        5
    } else if p is WaitingImage {
        4
    } else if p is Rendering {
        3
    } else if p is Releasing {
        2
    } else if p is Locating {
        1
    } else {
        0
    }
}

/// The frame-loop state machine.
pub struct FrameLoop {
    pub config: LoopConfig,
    /// Recommended per-eye image width from the runtime's view
    /// configuration.
    pub width: u32,
    /// Recommended per-eye image height.
    pub height: u32,
    /// True between a successful session begin and a stopping event.
    pub running: bool,
    /// Completed warm-up renders.
    pub frames_rendered: u32,
    /// Which call is outstanding.
    pub phase: Phase,
    /// Index of the acquired image; meaningful while one is held.
    pub image_index: u32,
    /// Timing of the frame in progress; meaningful inside a frame.
    pub frame: FrameState,
    /// Whether the frame in progress rendered into its acquired image;
    /// meaningful while releasing.
    pub rendered_this_frame: bool,
    /// Every call issued so far.
    pub trace: Ghost<Seq<TraceEntry>>,
}

impl FrameLoop {
    /// The machine's invariant: the trace is well formed, the warm-up
    /// counter matches the renders issued, and an image is held exactly in
    /// the phases between acquire and release.
    pub open spec fn inv(self) -> bool {
        &&& trace_ok(self.trace@, self.config.warmup_frames)
        &&& self.frames_rendered <= self.config.warmup_frames
        &&& (in_frame(self.phase) || self.phase is WaitingFrame ==> self.running)
        &&& (image_held(self.phase) || self.phase is Releasing ==> self.frames_rendered
            < self.config.warmup_frames)
        &&& crate::trace::count_calls(self.trace@, CallKind::Acquire)
            == crate::trace::count_calls(self.trace@, CallKind::Release) + (if image_held(
            self.phase,
        ) {
            1int
        } else {
            0int
        })
        &&& crate::trace::count_calls(self.trace@, CallKind::Render) == self.frames_rendered + (
        if self.phase is Rendering || (self.phase is Releasing && self.rendered_this_frame) {
            1int
        } else {
            0int
        })
        &&& crate::trace::count_calls(self.trace@, CallKind::WaitFrame) == crate::trace::count_calls(
            self.trace@,
            CallKind::EndFrame,
        ) + (if self.phase is WaitingFrame || (in_frame(self.phase) && !(self.phase is EndingFrame)) {
            1int
        } else {
            0int
        })
        &&& crate::trace::count_calls(self.trace@, CallKind::BeginFrame)
            == crate::trace::count_calls(self.trace@, CallKind::EndFrame) + (if in_frame(self.phase)
            && !(self.phase is EndingFrame) {
            1int
        } else {
            0int
        })
        &&& self.width <= 0x7fff_ffff
        &&& self.height <= 0x7fff_ffff
    }

    /// Build the machine. Polling is the first outstanding call: the runner
    /// drains one event and reports it through `step`.
    pub fn new(config: LoopConfig, width: u32, height: u32) -> (fl: FrameLoop)
        requires
            width <= 0x7fff_ffff,
            height <= 0x7fff_ffff,
        ensures
            fl.inv(),
            fl.config == config,
            fl.width == width,
            fl.height == height,
            !fl.running,
            fl.frames_rendered == 0,
            fl.phase is Polling,
            fl.trace@ =~= seq![TraceEntry { call: CallKind::Poll, running: false }],
    {
        let ghost t0: Seq<TraceEntry> = seq![TraceEntry { call: CallKind::Poll, running: false }];
        let fl = FrameLoop {
            config,
            width,
            height,
            running: false,
            frames_rendered: 0,
            phase: Phase::Polling,
            image_index: 0,
            frame: FrameState {
                predicted_display_time: 0,
                predicted_display_period: 0,
                should_render: false,
            },
            rendered_this_frame: false,
            trace: Ghost(t0),
        };
        proof {
            let t = fl.trace@;
            let emp = Seq::<TraceEntry>::empty();
            assert(t.take(0) =~= emp);
            assert(forall|i: int| 0 <= i < t.len() ==> #[trigger] entry_ok(
                t.take(i),
                t[i],
                config.warmup_frames,
            ));
            assert(t.drop_last() =~= emp);
            assert(crate::trace::count_calls(emp, CallKind::Acquire) == 0);
            assert(crate::trace::count_calls(emp, CallKind::Release) == 0);
            assert(crate::trace::count_calls(emp, CallKind::Render) == 0);
            assert(crate::trace::count_calls(emp, CallKind::WaitFrame) == 0);
            assert(crate::trace::count_calls(emp, CallKind::BeginFrame) == 0);
            assert(crate::trace::count_calls(emp, CallKind::EndFrame) == 0);
            assert(t.last().call == CallKind::Poll);
        }
        fl
    }

    /// Consume the outcome of the outstanding call and issue the next one.
    ///
    /// The ensures clauses are the loop's whole protocol: how `running`
    /// moves (only a successful session begin raises it, only a stopping
    /// state change lowers it), which call answers each outcome, that
    /// frame-wait, acquire and composition-submit are issued only while
    /// running, that an image-wait timeout still releases and composes,
    /// that every frame makes progress toward its composition, and that
    /// the trace grows by exactly the call issued.
    pub fn step(&mut self, outcome: CallOutcome) -> (r: RuntimeCall)
        requires
            old(self).inv(),
            outcome_matches(old(self).phase, outcome),
        ensures
            final(self).inv(),
            final(self).config == old(self).config,
            final(self).width == old(self).width,
            final(self).height == old(self).height,
            final(self).phase == phase_of_call(r),
            final(self).trace@ == old(self).trace@.push(
                TraceEntry { call: kind_of(r), running: final(self).running },
            ),
            // How `running` moves.
            final(self).running == (if (outcome matches CallOutcome::SessionBegun { ok } && ok) {
                true
            } else if (outcome matches CallOutcome::Polled { event }
                && event matches Some(LifecycleEvent::StateChanged(s)) && stops_running(s)) {
                false
            } else {
                old(self).running
            }),
            // A session begin is requested exactly for a READY state change.
            r is BeginSession <==> (outcome matches CallOutcome::Polled { event }
                && event matches Some(e) && decision_for(e) is BeginSession),
            // The loop fails loudly exactly on an unsupported event or a
            // refused session begin.
            r is Abort <==> ((outcome matches CallOutcome::Polled { event }
                && event matches Some(e) && decision_for(e) is Unsupported) || outcome
                == (CallOutcome::SessionBegun { ok: false })),
            // A successful session begin, and any event that needs no
            // runtime call, lead back to draining the queue.
            (outcome matches CallOutcome::SessionBegun { ok } && ok) ==> r is PollEvent,
            (outcome matches CallOutcome::Polled { event } && event matches Some(e) && (
            decision_for(e) is StopRunning || decision_for(e) is NoAction)) ==> r is PollEvent,
            // While not running the drained queue leads to the bounded
            // sleep; while running it leads to the frame wait.
            outcome == (CallOutcome::Polled { event: None::<LifecycleEvent> }) ==> (if old(
                self,
            ).running {
                r is WaitFrame
            } else {
                r is SleepBriefly
            }),
            // Calls gated on the session running.
            (r is WaitFrame || r is AcquireImage || r matches RuntimeCall::EndFrame { .. })
                ==> final(self).running,
            // The warm-up bound decides whether a begun frame produces
            // content or goes straight to composition.
            outcome is FrameBegun ==> (if old(self).frames_rendered
                < old(self).config.warmup_frames {
                r is AcquireImage
            } else {
                r matches RuntimeCall::LocateViews { .. }
            }),
            // The acquired image is the one rendered.
            outcome matches CallOutcome::ImageAcquired { image_index } ==> (r is WaitImage
                && final(self).image_index == image_index),
            outcome == (CallOutcome::ImageWaited { ready: true }) ==> r == (
            RuntimeCall::RenderImage { image_index: old(self).image_index }),
            // A timed-out image wait still releases the image: the frame
            // degrades and composition still follows.
            outcome == (CallOutcome::ImageWaited { ready: false }) ==> (r is ReleaseImage
                && !final(self).rendered_this_frame),
            outcome is Rendered ==> (r is ReleaseImage && final(self).rendered_this_frame),
            // Releasing completes the warm-up frame; only a rendered frame
            // counts.
            final(self).frames_rendered == old(self).frames_rendered + (if outcome is Released
                && old(self).rendered_this_frame {
                1int
            } else {
                0int
            }),
            outcome is Released ==> r is LocateViews,
            // Poses are always resolved at the frame's predicted display
            // time.
            r matches RuntimeCall::LocateViews { display_time } ==> display_time == old(
                self,
            ).frame.predicted_display_time,
            // Poses and composition use the frame's predicted display time;
            // the layer is exactly the owed one.
            outcome is ViewsLocated ==> (r matches RuntimeCall::EndFrame { layer } && layer_ok(
                layer,
                old(self).config,
                old(self).width,
                old(self).height,
                old(self).frame.predicted_display_time,
            )),
            outcome is FrameWaited ==> r is BeginFrame,
            outcome matches CallOutcome::FrameWaited { frame } ==> final(self).frame == frame,
            !(outcome is FrameWaited) ==> final(self).frame == old(self).frame,
            // A failed composition submit is absorbed: the loop returns to
            // polling either way.
            outcome is FrameEnded ==> r is PollEvent,
            outcome is Slept ==> r is PollEvent,
            // Every step inside a frame moves strictly toward the frame's
            // composition.
            (in_frame(old(self).phase) && !(old(self).phase is EndingFrame)) ==> (in_frame(
                final(self).phase,
            ) && frame_distance(final(self).phase) < frame_distance(old(self).phase)),
    {
        let ghost pre = *self;
        let r: RuntimeCall = match outcome {
            CallOutcome::Polled { event } => {
                match event {
                    Some(e) => {
                        match classify_event(e) {
                            LifecycleDecision::BeginSession => {
                                self.phase = Phase::BeginningSession;
                                RuntimeCall::BeginSession
                            },
                            LifecycleDecision::StopRunning => {
                                self.running = false;
                                self.phase = Phase::Polling;
                                RuntimeCall::PollEvent
                            },
                            LifecycleDecision::Unsupported => {
                                self.phase = Phase::Aborted;
                                RuntimeCall::Abort
                            },
                            LifecycleDecision::NoAction => {
                                self.phase = Phase::Polling;
                                RuntimeCall::PollEvent
                            },
                        }
                    },
                    None => {
                        if self.running {
                            self.phase = Phase::WaitingFrame;
                            RuntimeCall::WaitFrame
                        } else {
                            self.phase = Phase::Sleeping;
                            RuntimeCall::SleepBriefly
                        }
                    },
                }
            },
            CallOutcome::SessionBegun { ok } => {
                if ok {
                    self.running = true;
                    self.phase = Phase::Polling;
                    RuntimeCall::PollEvent
                } else {
                    self.phase = Phase::Aborted;
                    RuntimeCall::Abort
                }
            },
            CallOutcome::Slept => {
                self.phase = Phase::Polling;
                RuntimeCall::PollEvent
            },
            CallOutcome::FrameWaited { frame } => {
                self.frame = frame;
                self.phase = Phase::BeginningFrame;
                RuntimeCall::BeginFrame
            },
            CallOutcome::FrameBegun => {
                if self.frames_rendered < self.config.warmup_frames {
                    self.phase = Phase::Acquiring;
                    RuntimeCall::AcquireImage
                } else {
                    self.phase = Phase::Locating;
                    RuntimeCall::LocateViews {
                        display_time: self.frame.predicted_display_time,
                    }
                }
            },
            CallOutcome::ImageAcquired { image_index } => {
                self.image_index = image_index;
                self.phase = Phase::WaitingImage;
                RuntimeCall::WaitImage
            },
            CallOutcome::ImageWaited { ready } => {
                if ready {
                    self.phase = Phase::Rendering;
                    RuntimeCall::RenderImage { image_index: self.image_index }
                } else {
                    self.rendered_this_frame = false;
                    self.phase = Phase::Releasing;
                    RuntimeCall::ReleaseImage
                }
            },
            CallOutcome::Rendered => {
                self.rendered_this_frame = true;
                self.phase = Phase::Releasing;
                RuntimeCall::ReleaseImage
            },
            CallOutcome::Released => {
                if self.rendered_this_frame {
                    self.frames_rendered = self.frames_rendered + 1;
                    self.rendered_this_frame = false;
                }
                self.phase = Phase::Locating;
                RuntimeCall::LocateViews {
                    display_time: self.frame.predicted_display_time,
                }
            },
            CallOutcome::ViewsLocated => {
                let layer = compose_layer(
                    &self.config,
                    self.width,
                    self.height,
                    self.frame.predicted_display_time,
                );
                self.phase = Phase::EndingFrame;
                RuntimeCall::EndFrame { layer }
            },
            CallOutcome::FrameEnded { ok: _ } => {
                self.phase = Phase::Polling;
                RuntimeCall::PollEvent
            },
        };
        proof {
            let e = TraceEntry { call: kind_of(r), running: self.running };
            assert(entry_ok(pre.trace@, e, pre.config.warmup_frames));
            lemma_trace_ok_push(pre.trace@, e, pre.config.warmup_frames);
            lemma_count_push(pre.trace@, e, CallKind::Acquire);
            lemma_count_push(pre.trace@, e, CallKind::Release);
            lemma_count_push(pre.trace@, e, CallKind::Render);
            lemma_count_push(pre.trace@, e, CallKind::WaitFrame);
            lemma_count_push(pre.trace@, e, CallKind::BeginFrame);
            lemma_count_push(pre.trace@, e, CallKind::EndFrame);
        }
        self.trace = Ghost(
            self.trace@.push(TraceEntry { call: kind_of(r), running: self.running }),
        );
        r
    }
}

} // verus!
