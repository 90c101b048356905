use vstd::prelude::*;

verus! {

/// The failures that the timer's control calls report to their caller.
#[derive(Copy, Clone, Debug, PartialEq, Eq)]
pub enum Error {
    /// The native handle could not be initialised.
    HandleInit,
    /// The native loop refused to start the timer.
    TimerStart,
    /// The native loop refused to stop the timer.
    TimerStop,
}

} // verus!
