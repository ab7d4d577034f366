//! The readiness gate of a shell: a latch that opens once, when the PTY and
//! shell requests have gone through, and closes for good when streaming ends.

use vstd::prelude::*;

verus! {

/// The three positions of the latch.
#[derive(Clone, Copy, Debug, PartialEq, Eq, Structural)]
pub enum Gate {
    /// Activation has not completed; nobody may stream yet.
    NotActivated,
    /// Activation has completed; the permit is out.
    Open,
    /// Streaming has ended; no permit can be obtained any more.
    Closed,
}

/// What a streaming loop is told when it asks for the permit.
#[derive(Clone, Copy, Debug, PartialEq, Eq, Structural)]
pub enum Admission {
    /// Not activated yet: ask again once activation has completed.
    Wait,
    /// The permit is granted.
    Enter,
    /// The latch is closed: fail, do not wait.
    Refused,
}

impl Gate {
    /// The latch after one permit is added: a latch that was never activated
    /// opens, any other stays as it is.
    pub open spec fn granted(self) -> Gate {
        match self {
            Gate::NotActivated => Gate::Open,
            Gate::Open => Gate::Open,
            Gate::Closed => Gate::Closed,
        }
    }

    /// The answer to a request for the permit.
    pub open spec fn admission(self) -> Admission {
        match self {
            Gate::NotActivated => Admission::Wait,
            Gate::Open => Admission::Enter,
            Gate::Closed => Admission::Refused,
        }
    }

    /// A latch with no permit.
    pub fn new() -> (gate: Gate)
        ensures
            gate == Gate::NotActivated,
    {
        Gate::NotActivated
    }

    /// Adds the permit.
    pub fn grant(&mut self)
        ensures
            *final(self) == old(self).granted(),
    {
        match *self {
            Gate::NotActivated => {
                *self = Gate::Open;
            },
            _ => {},
        }
    }

    /// Closes the latch for good.
    pub fn close(&mut self)
        ensures
            *final(self) == Gate::Closed,
    {
        *self = Gate::Closed;
    }

    /// Asks for the permit.
    pub fn acquire(&self) -> (answer: Admission)
        ensures
            answer == self.admission(),
    {
        match *self {
            Gate::NotActivated => Admission::Wait,
            Gate::Open => Admission::Enter,
            Gate::Closed => Admission::Refused,
        }
    }

    /// Whether the permit was ever issued, or the latch closed.
    pub fn is_activated(&self) -> (activated: bool)
        ensures
            activated == (*self != Gate::NotActivated),
    {
        match *self {
            Gate::NotActivated => false,
            _ => true,
        }
    }

    /// Whether the permit is out.
    pub fn is_open(&self) -> (open: bool)
        ensures
            open == (*self == Gate::Open),
    {
        match *self {
            Gate::Open => true,
            _ => false,
        }
    }
}

/// Granting is idempotent: a second permit changes nothing, so however often
/// activation completes there is one permit in total.
pub proof fn lemma_grant_once(gate: Gate)
    ensures
        gate.granted().granted() == gate.granted(),
        gate != Gate::Closed ==> gate.granted() == Gate::Open,
{
}

/// A closed latch stays closed: adding a permit does not reopen it, and it
/// refuses every request.
pub proof fn lemma_closed_is_final(gate: Gate)
    requires
        gate == Gate::Closed,
    ensures
        gate.granted() == Gate::Closed,
        gate.admission() == Admission::Refused,
{
}

} // verus!
