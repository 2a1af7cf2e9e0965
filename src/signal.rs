use vstd::prelude::*;
use crate::error::Progress;

verus! {

/// A cancellation signal that never fires.
///
/// It fills a slot that expects a cancellation input when the integration
/// offers no cancellation in the middle of a transfer.
#[derive(Debug, Clone, Copy, PartialEq, Eq, Structural)]
pub struct NeverResolvingSignal {}

impl NeverResolvingSignal {
    pub fn new() -> (s: Self) {
        NeverResolvingSignal {}
    }

    /// Reports that the signal has not fired, on every poll.
    pub fn poll(&mut self) -> (r: Progress<()>)
        ensures
            r == Progress::<()>::Pending,
            *final(self) == *old(self),
    {
        Progress::Pending
    }
}

} // verus!
