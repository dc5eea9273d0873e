//! The two shared coordination objects of a test run, as verified models:
//! the shutdown flag (a single-writer boolean that goes false to true at
//! most once and never reverts) and the two-party ready rendezvous (each
//! party arrives exactly once; neither proceeds before both have arrived).

use vstd::prelude::*;

verus! {

/// The shutdown flag shared between the harness and the listener. It starts
/// lowered; `raise` is the only operation that changes it, and it only ever
/// sets it.
#[derive(Clone, Copy, Debug, PartialEq, Eq, Structural)]
pub struct ShutdownFlag {
    raised: bool,
}

/// The value of a flag after `raise`, whatever it held before.
pub closed spec fn raised_flag(f: ShutdownFlag) -> ShutdownFlag {
    ShutdownFlag { raised: true }
}

impl ShutdownFlag {
    /// Whether the flag has been raised, for specifications.
    pub closed spec fn is_raised(self) -> bool {
        self.raised
    }

    /// A fresh, lowered flag.
    pub fn new() -> (r: ShutdownFlag)
        ensures
            !r.is_raised(),
    {
        ShutdownFlag { raised: false }
    }

    /// Raise the flag. Raising an already-raised flag changes nothing.
    pub fn raise(&mut self)
        ensures
            *final(self) == raised_flag(*old(self)),
            final(self).is_raised(),
    {
        self.raised = true;
    }

    /// Read the flag, as the listener does at each loop top.
    pub fn is_set(&self) -> (r: bool)
        ensures
            r == self.is_raised(),
    {
        self.raised
    }
}

/// Raising the flag is idempotent: a second raise leaves exactly the state
/// the first produced, so triggering the shutdown guarantee more than once
/// has no additional effect.
pub proof fn lemma_raise_idempotent(f: ShutdownFlag)
    ensures
        raised_flag(raised_flag(f)) == raised_flag(f),
{
}

/// The flag never reverts: once raised, it is still raised after any
/// further raise, and no other operation exists.
pub proof fn lemma_raise_monotone(f: ShutdownFlag)
    ensures
        raised_flag(f).is_raised(),
        f.is_raised() ==> raised_flag(f).is_raised(),
{
}

/// The two-party rendezvous the harness and the listener cross once per
/// run. Each party arrives at most once; it is complete only when both
/// have, and it is not reusable: arrivals cannot be taken back.
#[derive(Clone, Copy, Debug, PartialEq, Eq, Structural)]
pub struct Rendezvous {
    listener_here: bool,
    harness_here: bool,
}

impl Rendezvous {
    /// Whether the listener party has arrived, for specifications.
    pub closed spec fn listener_arrived(self) -> bool {
        self.listener_here
    }

    /// Whether the harness party has arrived, for specifications.
    pub closed spec fn harness_arrived(self) -> bool {
        self.harness_here
    }

    /// Both parties have arrived; only then may either proceed.
    pub open spec fn complete(self) -> bool {
        self.listener_arrived() && self.harness_arrived()
    }

    /// A fresh rendezvous nobody has reached.
    pub fn new() -> (r: Rendezvous)
        ensures
            !r.listener_arrived(),
            !r.harness_arrived(),
            !r.complete(),
    {
        Rendezvous { listener_here: false, harness_here: false }
    }

    /// The listener arrives. A party arrives only once.
    pub fn arrive_listener(&mut self)
        requires
            !old(self).listener_arrived(),
        ensures
            final(self).listener_arrived(),
            final(self).harness_arrived() == old(self).harness_arrived(),
    {
        self.listener_here = true;
    }

    /// The harness arrives. A party arrives only once.
    pub fn arrive_harness(&mut self)
        requires
            !old(self).harness_arrived(),
        ensures
            final(self).harness_arrived(),
            final(self).listener_arrived() == old(self).listener_arrived(),
    {
        self.harness_here = true;
    }

    /// Whether both parties have arrived, so that either may proceed.
    pub fn is_complete(&self) -> (r: bool)
        ensures
            r == self.complete(),
    {
        self.listener_here && self.harness_here
    }
}

} // verus!
