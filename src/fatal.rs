use vstd::prelude::*;
use crate::error::VeilError;

verus! {

/// A single-slot hand-off for the one terminal error of a run: the event loop,
/// whose callbacks cannot return a result, writes it, and the entry point reads
/// it once the loop has returned.
pub struct FatalSlot {
    pub error: Option<VeilError>,
}

/// The slot after `e` is offered: the first error of a run is kept, later
/// ones are dropped.
pub open spec fn recorded(slot: Option<VeilError>, e: VeilError) -> Option<VeilError> {
    match slot {
        Some(first) => Some(first),
        None => Some(e),
    }
}

impl FatalSlot {
    pub fn new() -> (r: FatalSlot)
        ensures
            r.error is None,
    {
        FatalSlot { error: None }
    }

    /// Offers a terminal error; only the first of a run is kept.
    pub fn record(&mut self, e: VeilError)
        ensures
            final(self).error == recorded(old(self).error, e),
    {
        if self.error.is_none() {
            self.error = Some(e);
        }
    }

    /// Reads the slot once, leaving it empty.
    pub fn drain(&mut self) -> (r: Option<VeilError>)
        ensures
            r == old(self).error,
            final(self).error is None,
    {
        let r = self.error.take();
        r
    }
}

/// The slot holds at most one error per run: once written, further errors
/// leave it unchanged, so what the entry point reads is the first failure.
pub proof fn lemma_first_error_wins(slot: Option<VeilError>, a: VeilError, b: VeilError)
    ensures
        recorded(recorded(slot, a), b) == recorded(slot, a),
        slot is None ==> recorded(recorded(slot, a), b) == Some(a),
{
}

} // verus!
