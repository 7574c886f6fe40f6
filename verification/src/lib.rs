//! The coordination core of an immersive-rendering session: a frame-loop
//! state machine that interleaves runtime lifecycle events, per-frame
//! timing, swapchain image acquisition and release, and composition
//! submission, keeping them strictly ordered. The machine performs no I/O:
//! a runner performs each call it issues and reports the outcome. The
//! ordering protocol — begin only after READY, nothing frame-related while
//! not running, acquire/release and wait/begin/end alternation, the
//! warm-up bound on content production — is proved over a ghost trace of
//! the issued calls.

pub mod composition;
pub mod config;
pub mod driver;
pub mod lifecycle;
pub mod staging;
pub mod trace;
