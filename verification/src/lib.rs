//! A single-producer, single-consumer, one-shot synchronization channel.
//!
//! The channel hands exactly one value from one thread to exactly one other
//! thread, with explicit disconnect detection and blocking, polling, timeout
//! and deadline waiting disciplines. Around it sit the small message types
//! that route a reply either to an in-memory channel or (unimplemented) to a
//! raw file descriptor.

use vstd::prelude::*;

mod sync;

pub mod msg;
pub mod oneshot;

verus! {

/// The error a window thread reports when its event loop ends
/// unexpectedly, most often as the result of an operating-system error.
#[derive(Clone, Copy, Debug, PartialEq, Eq, Structural)]
pub struct WindowError;

impl WindowError {
    /// A human-readable description of the failure.
    pub fn message(&self) -> (s: &'static str)
        ensures
            s@ == "window thread encountered an error, likely the result of an OS error"@,
    {
        "window thread encountered an error, likely the result of an OS error"
    }
}

} // verus!
