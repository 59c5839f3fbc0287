//! The claim on the SDK, of which a process has one.

use vstd::prelude::*;

verus! {

/// The single claim on the SDK.  It is taken when a session starts and given
/// back when the session fails to start or is shut down.  Whoever holds the
/// guard by `&mut` decides alone, so a claim cannot be taken twice at once.
#[derive(Debug)]
pub struct Guard {
    claimed: bool,
}

impl Guard {
    /// Whether a session holds the claim.
    pub closed spec fn claimed(&self) -> bool {
        self.claimed
    }

    /// A guard that nobody has claimed.
    pub fn new() -> (guard: Guard)
        ensures
            !guard.claimed(),
    {
        Guard { claimed: false }
    }

    /// Tells whether a session holds the claim.
    pub fn is_claimed(&self) -> (held: bool)
        ensures
            held == self.claimed(),
    {
        self.claimed
    }

    /// Takes the claim.
    pub(crate) fn claim(&mut self)
        requires
            !old(self).claimed(),
        ensures
            final(self).claimed(),
    {
        self.claimed = true;
    }

    /// Gives the claim back.
    pub(crate) fn release(&mut self)
        ensures
            !final(self).claimed(),
    {
        self.claimed = false;
    }
}

impl Default for Guard {
    fn default() -> (guard: Guard)
        ensures
            !guard.claimed(),
    {
        Guard::new()
    }
}

} // verus!
