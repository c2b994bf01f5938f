//! A pause-capable stopwatch built on a monotonic clock.
//!
//! The core is a small state machine ([`timer::TimerState`]) that keeps an
//! accumulated duration together with the clock reading at which the current
//! running interval began. Elapsed time, pausing, resuming, resetting and the
//! rendering of the two display fields (`MM:SS` and `:mmm`) are all verified
//! over plain nanosecond counts; only the clock readings themselves come from
//! the outside.

pub mod app;
pub mod clock;
pub mod format;
pub mod input;
pub mod timer;
