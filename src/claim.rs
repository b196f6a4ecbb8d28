use vstd::prelude::*;
use crate::session::Fault;

verus! {

/// What taking from a slot that holds `held` returns, and what the slot holds
/// afterwards.
pub open spec fn take_outcome<P>(held: Option<P>) -> (Result<P, Fault>, Option<P>) {
    match held {
        Some(p) => (Ok(p), None),
        None => (Err(Fault::PeripheralsTaken), None),
    }
}

/// The board's peripheral set, handed out at most once.
pub struct PeripheralSlot<P> {
    held: Option<P>,
}

impl<P> PeripheralSlot<P> {
    /// What the slot still holds.
    pub closed spec fn contents(self) -> Option<P> {
        self.held
    }

    /// A slot holding `held`: the peripheral set, or nothing when it has
    /// already been handed out elsewhere.
    pub fn new(held: Option<P>) -> (r: PeripheralSlot<P>)
        ensures
            r.contents() == held,
    {
        PeripheralSlot { held }
    }

    /// Hands the peripheral set out; every later request fails.
    pub fn take(&mut self) -> (r: Result<P, Fault>)
        ensures
            (r, final(self).contents()) == take_outcome(old(self).contents()),
    {
        match self.held.take() {
            Some(p) => Ok(p),
            None => Err(Fault::PeripheralsTaken),
        }
    }
}

/// Single claim: whatever a slot held, requesting the peripheral set a second
/// time fails.
pub proof fn lemma_second_take_fails<P>(held: Option<P>)
    ensures
        take_outcome(take_outcome(held).1).0 == Err::<P, Fault>(Fault::PeripheralsTaken),
{
}

} // verus!
