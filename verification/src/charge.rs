//! How long an ability's input has been held.

use std::time::Duration;
use vstd::prelude::*;
use crate::time::{duration_nanos, from_nanos, to_nanos, MAX_NANOS};

verus! {

/// The time since an activation started. Its view is that time in
/// nanoseconds. It is meaningful from the press that starts it to the
/// release that reads it; the next start resets it.
#[derive(Clone, Copy, Debug, PartialEq, Eq, Structural)]
pub struct AbilityCharge {
    elapsed: u128,
}

impl View for AbilityCharge {
    type V = nat;

    closed spec fn view(&self) -> nat {
        self.elapsed as nat
    }
}

/// The charge after `nanos` more nanoseconds of holding. A charge holds at
/// most what a `Duration` can, and stays there.
pub open spec fn advanced(elapsed: nat, nanos: nat) -> nat {
    if elapsed + nanos >= MAX_NANOS {
        MAX_NANOS as nat
    } else {
        elapsed + nanos
    }
}

impl Default for AbilityCharge {
    /// A charge that has not been held at all.
    fn default() -> (c: Self)
        ensures
            c@ == 0,
    {
        AbilityCharge { elapsed: 0 }
    }
}

impl AbilityCharge {
    #[verifier::type_invariant]
    pub open spec fn inv(&self) -> bool {
        self@ <= MAX_NANOS
    }

    /// A charge that has been held for `held`.
    pub fn new(held: Duration) -> (c: Self)
        ensures
            c@ == duration_nanos(held),
    {
        AbilityCharge { elapsed: to_nanos(held) }
    }

    /// Begins a new activation: nothing has been held yet.
    pub fn start(&mut self)
        ensures
            final(self)@ == 0,
    {
        self.elapsed = 0;
    }

    /// Adds `delta_time` to the time held.
    pub fn advance(&mut self, delta_time: Duration)
        ensures
            final(self)@ == advanced(old(self)@, duration_nanos(delta_time)),
            final(self)@ <= MAX_NANOS,
    {
        proof {
            use_type_invariant(&*self);
        }
        let delta: u128 = to_nanos(delta_time);
        let room: u128 = MAX_NANOS - self.elapsed;
        if delta >= room {
            self.elapsed = MAX_NANOS;
        } else {
            self.elapsed = self.elapsed + delta;
        }
    }

    /// The time held since the last start.
    pub fn duration(&self) -> (d: Duration)
        ensures
            duration_nanos(d) == self@,
            self@ <= MAX_NANOS,
    {
        proof {
            use_type_invariant(self);
        }
        from_nanos(self.elapsed)
    }

    /// The time held since the last start, in nanoseconds.
    pub fn nanos(&self) -> (n: u128)
        ensures
            n == self@,
            n <= MAX_NANOS,
    {
        proof {
            use_type_invariant(self);
        }
        self.elapsed
    }
}

/// A charge is nothing but what its view shows: two charges that look the
/// same are the same.
pub proof fn lemma_same_view_same_charge(a: AbilityCharge, b: AbilityCharge)
    requires
        a@ == b@,
    ensures
        a == b,
{
}

} // verus!
