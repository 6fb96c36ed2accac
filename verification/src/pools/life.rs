//! Life: what keeps a character standing.

use std::time::Duration;
use vstd::prelude::*;
use crate::pool::{
    regenerated, MaxPoolLessThanMin, Pool, PoolView, Quantity, RegeneratingPool, MIN_UNITS,
};

verus! {

/// An amount of life, in units.
#[derive(Debug, Clone, Copy, PartialEq, Eq, PartialOrd, Ord, Hash, Default, Structural)]
pub struct Life(pub i64);

impl Quantity for Life {
    open spec fn units(self) -> int {
        self.0 as int
    }

    fn to_units(self) -> (u: i64) {
        self.0
    }

    fn from_units(u: i64) -> (q: Self) {
        Life(u)
    }
}

/// A character's life: a level between zero and a maximum, restored over
/// time.
#[derive(Debug, Clone, Copy, PartialEq, Eq, Structural)]
pub struct LifePool {
    current: Life,
    max: Life,
    regen_per_second: Life,
}

impl View for LifePool {
    type V = PoolView;

    closed spec fn view(&self) -> PoolView {
        PoolView {
            current: self.current.0 as int,
            max: self.max.0 as int,
            regen_per_second: self.regen_per_second.0 as int,
        }
    }
}

impl LifePool {
    #[verifier::type_invariant]
    pub open spec fn inv(&self) -> bool {
        self@.wf()
    }

    /// A pool at `current` of at most `max`, regenerating `regen_per_second`
    /// every second. The level must lie between the minimum and `max`.
    pub fn new(current: Life, max: Life, regen_per_second: Life) -> (pool: Self)
        requires
            MIN_UNITS <= current.0 <= max.0,
        ensures
            pool@.current == current.0,
            pool@.max == max.0,
            pool@.regen_per_second == regen_per_second.0,
            pool@.wf(),
    {
        Self { current, max, regen_per_second }
    }
}

impl Pool for LifePool {
    type Quantity = Life;

    open spec fn fixed_max() -> bool {
        false
    }

    fn current(&self) -> (q: Life) {
        proof {
            use_type_invariant(self);
        }
        assert(self.current.units() == self.current.0);
        self.current
    }

    fn set_current(&mut self, new_quantity: Life) -> (q: Life) {
        proof {
            use_type_invariant(&*self);
        }
        let actual: i64 = if new_quantity.0 < MIN_UNITS {
            MIN_UNITS
        } else if new_quantity.0 > self.max.0 {
            self.max.0
        } else {
            new_quantity.0
        };
        self.current = Life(actual);
        assert(self.current.units() == actual);
        assert(new_quantity.units() == new_quantity.0);
        self.current
    }

    fn max(&self) -> (q: Life) {
        self.max
    }

    fn set_max(&mut self, new_max: Life) -> (r: Result<(), MaxPoolLessThanMin>)
        ensures
            r is Err <==> new_max.0 < MIN_UNITS,
            r is Ok ==> final(self)@ == old(self)@.with_max(new_max.0 as int),
    {
        proof {
            use_type_invariant(&*self);
        }
        assert(new_max.units() == new_max.0);
        if new_max.0 < MIN_UNITS {
            Err(MaxPoolLessThanMin)
        } else {
            if self.current.0 > new_max.0 {
                self.current = new_max;
            }
            self.max = new_max;
            Ok(())
        }
    }
}

impl RegeneratingPool for LifePool {
    fn regen_per_second(&self) -> (q: Life) {
        self.regen_per_second
    }

    fn set_regen_per_second(&mut self, new_regen_per_second: Life) {
        proof {
            use_type_invariant(&*self);
        }
        self.regen_per_second = new_regen_per_second;
    }

    fn regenerate(&mut self, delta_time: Duration) {
        proof {
            use_type_invariant(&*self);
        }
        let level: i64 = regenerated(self.current.0, self.regen_per_second.0, delta_time);
        self.set_current(Life(level));
    }
}

/// A life pool is nothing but what its view shows: two pools that look the
/// same are the same.
pub proof fn lemma_same_view_same_pool(a: LifePool, b: LifePool)
    requires
        a@ == b@,
    ensures
        a == b,
{
}

} // verus!
