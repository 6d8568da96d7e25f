//! Conditions that gate the entry into and the exit from a motion phase.

use vstd::prelude::*;

verus! {

/// What a condition answers when playback asks whether it may pass.
#[derive(Clone, Copy, Debug, PartialEq, Eq, Structural)]
pub enum Response {
    /// Playback must stop where it is.
    Abort,
    /// Playback may pass.
    Continue,
    /// Playback has to ask again in the next cycle.
    Wait,
}

/// A predicate over a snapshot of the sensors and the time already spent
/// waiting, in nanoseconds.
///
/// Playback takes the answer to be a function of its arguments: the same
/// condition, input and time give the same answer. Nothing verifies that of
/// an implementation in plain Rust.
pub trait Condition {
    /// The sensor snapshot that the condition looks at.
    type Input;

    /// The answer as a function of its arguments. A verified implementation
    /// defines it; for any other it stands for whatever `evaluate` computes.
    open spec fn response(&self, input: &Self::Input, time_since_start: nat) -> Response {
        vstd::pervasive::arbitrary::<spec_fn(&Self, &Self::Input, nat) -> Response>()(
            self,
            input,
            time_since_start,
        )
    }

    /// Whether playback may pass, with the sensors at `input` and after
    /// `time_since_start` nanoseconds of waiting.
    fn evaluate(&self, input: &Self::Input, time_since_start: u128) -> (response: Response)
        ensures
            response == self.response(input, time_since_start as nat),
    ;
}

} // verus!
