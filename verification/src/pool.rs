//! Bounded resource pools: what they hold, how it is spent and restored.
//!
//! Amounts are whole numbers of units. How many units make a point on screen
//! is up to whoever shows them; the finer the unit, the less a tick of
//! regeneration loses to rounding.

use std::time::Duration;
use vstd::prelude::*;
use crate::CannotUseAbility;
use crate::time::{accrual, accrued, duration_nanos};

verus! {

/// The error of setting a pool's maximum below its minimum.
#[derive(Clone, Copy, Debug, PartialEq, Eq, Structural)]
pub struct MaxPoolLessThanMin;

/// The least amount any pool can hold.
pub const MIN_UNITS: i64 = 0;

/// An amount of a resource: a whole, signed number of units. Pools hold such
/// amounts, abilities cost them.
pub trait Quantity: Copy {
    /// The amount as a number.
    spec fn units(self) -> int;

    fn to_units(self) -> (u: i64)
        ensures
            u == self.units(),
    ;

    fn from_units(u: i64) -> (q: Self)
        ensures
            q.units() == u,
    ;
}

impl Quantity for i64 {
    open spec fn units(self) -> int {
        self as int
    }

    fn to_units(self) -> (u: i64) {
        self
    }

    fn from_units(u: i64) -> (q: Self) {
        u
    }
}

/// `x` brought into the range from `lo` to `hi`.
pub open spec fn clamp(x: int, lo: int, hi: int) -> int {
    if x < lo {
        lo
    } else if x > hi {
        hi
    } else {
        x
    }
}

/// What `nanos` nanoseconds of regeneration at `per_second` units a second
/// add to a pool: the exact product, rounded toward zero to whole units.
pub open spec fn regen_amount(per_second: int, nanos: nat) -> int {
    if per_second >= 0 {
        accrual(per_second as nat, nanos) as int
    } else {
        -(accrual((-per_second) as nat, nanos) as int)
    }
}

/// What a pool is: its level, its ceiling and its passive regeneration, in
/// units and units per second.
pub struct PoolView {
    pub current: int,
    pub max: int,
    pub regen_per_second: int,
}

impl PoolView {
    /// The level lies between the minimum and the maximum, and the maximum
    /// is an amount that a quantity can hold.
    pub open spec fn wf(self) -> bool {
        MIN_UNITS <= self.current <= self.max <= i64::MAX
    }

    pub open spec fn can_afford(self, amount: int) -> bool {
        self.current >= amount
    }

    /// The answer of an affordability check.
    pub open spec fn available(self, amount: int) -> Result<(), CannotUseAbility> {
        if self.can_afford(amount) {
            Ok(())
        } else {
            Err(CannotUseAbility::ResourceMissing)
        }
    }

    /// The pool with its level set to `quantity`, brought into range.
    pub open spec fn with_current(self, quantity: int) -> PoolView {
        PoolView { current: clamp(quantity, MIN_UNITS as int, self.max), ..self }
    }

    /// The pool after an attempt to spend `amount`: lowered by it if it was
    /// affordable, untouched if not.
    pub open spec fn expend(self, amount: int) -> PoolView {
        if self.can_afford(amount) {
            self.with_current(self.current - amount)
        } else {
            self
        }
    }

    /// The pool after `amount` was given back to it.
    pub open spec fn replenish(self, amount: int) -> PoolView {
        self.with_current(self.current + amount)
    }

    /// The pool with a new, valid maximum: the level is brought back into
    /// range.
    pub open spec fn with_max(self, new_max: int) -> PoolView {
        PoolView { current: clamp(self.current, MIN_UNITS as int, new_max), max: new_max, ..self }
    }

    pub open spec fn with_regen(self, per_second: int) -> PoolView {
        PoolView { regen_per_second: per_second, ..self }
    }

    /// The pool after `nanos` nanoseconds of passive regeneration.
    pub open spec fn regenerate(self, nanos: nat) -> PoolView {
        self.with_current(self.current + regen_amount(self.regen_per_second, nanos))
    }
}

/// A bounded store of some resource. Its level never leaves the range from
/// the minimum to its maximum.
pub trait Pool: Sized + View<V = PoolView> {
    type Quantity: Quantity;

    /// Whether pools of this kind have a maximum that cannot be set.
    spec fn fixed_max() -> bool;

    fn current(&self) -> (q: Self::Quantity)
        ensures
            q.units() == self@.current,
            self@.wf(),
    ;

    /// `Ok` if the pool holds at least `amount`, `ResourceMissing` if not.
    fn available(&self, amount: Self::Quantity) -> (r: Result<(), CannotUseAbility>)
        ensures
            r == self@.available(amount.units()),
            self@.wf(),
    {
        if self.current().to_units() >= amount.to_units() {
            Ok(())
        } else {
            Err(CannotUseAbility::ResourceMissing)
        }
    }

    /// Sets the level, brought into the pool's range, and returns it.
    fn set_current(&mut self, new_quantity: Self::Quantity) -> (q: Self::Quantity)
        ensures
            final(self)@ == old(self)@.with_current(new_quantity.units()),
            final(self)@.wf(),
            q.units() == final(self)@.current,
    ;

    fn max(&self) -> (q: Self::Quantity)
        ensures
            q.units() == self@.max,
    ;

    /// Sets the maximum and brings the level back into range. A maximum
    /// below the minimum is refused and changes nothing. A pool whose
    /// maximum is fixed accepts every request and stays as it is.
    fn set_max(&mut self, new_max: Self::Quantity) -> (r: Result<(), MaxPoolLessThanMin>)
        ensures
            r is Err <==> !Self::fixed_max() && new_max.units() < MIN_UNITS,
            r is Err ==> *final(self) == *old(self),
            r is Ok && Self::fixed_max() ==> final(self)@ == old(self)@,
            r is Ok && !Self::fixed_max() ==> final(self)@ == old(self)@.with_max(new_max.units()),
            final(self)@.wf(),
    ;

    /// Spends `amount` if the pool holds it. If not, the pool is untouched
    /// and the answer is `ResourceMissing`.
    fn expend(&mut self, amount: Self::Quantity) -> (r: Result<(), CannotUseAbility>)
        ensures
            r == old(self)@.available(amount.units()),
            final(self)@ == old(self)@.expend(amount.units()),
            r is Err ==> *final(self) == *old(self),
            final(self)@.wf(),
            r is Ok && amount.units() >= 0 ==> final(self)@.current == old(self)@.current
                - amount.units(),
    {
        self.available(amount)?;

        let new: i64 = saturating_difference(self.current().to_units(), amount.to_units());
        self.set_current(Self::Quantity::from_units(new));
        Ok(())
    }

    /// Gives `amount` back to the pool, up to its maximum.
    fn replenish(&mut self, amount: Self::Quantity)
        ensures
            final(self)@ == old(self)@.replenish(amount.units()),
            final(self)@.wf(),
    {
        let new: i64 = saturating_sum(self.current().to_units(), amount.to_units());
        self.set_current(Self::Quantity::from_units(new));
    }
}

/// `a - b`, held at the ends of the `i64` range.
pub fn saturating_difference(a: i64, b: i64) -> (d: i64)
    ensures
        d == clamp(a - b, i64::MIN as int, i64::MAX as int),
{
    let wide: i128 = a as i128 - b as i128;
    if wide > i64::MAX as i128 {
        i64::MAX
    } else if wide < i64::MIN as i128 {
        i64::MIN
    } else {
        wide as i64
    }
}

/// `a + b`, held at the ends of the `i64` range.
pub fn saturating_sum(a: i64, b: i64) -> (s: i64)
    ensures
        s == clamp(a + b, i64::MIN as int, i64::MAX as int),
{
    let wide: i128 = a as i128 + b as i128;
    if wide > i64::MAX as i128 {
        i64::MAX
    } else if wide < i64::MIN as i128 {
        i64::MIN
    } else {
        wide as i64
    }
}

/// The level that `delta_time` of regeneration at `per_second` units a second
/// leads to from `current`, held at the ends of the `i64` range.
pub fn regenerated(current: i64, per_second: i64, delta_time: Duration) -> (level: i64)
    ensures
        level == clamp(
            current + regen_amount(per_second as int, duration_nanos(delta_time)),
            i64::MIN as int,
            i64::MAX as int,
        ),
{
    if per_second >= 0 {
        let gain: u128 = accrued(per_second as u64, delta_time);
        let room: i128 = i64::MAX as i128 - current as i128;
        if gain >= room as u128 {
            i64::MAX
        } else {
            (current as i128 + gain as i128) as i64
        }
    } else {
        let rate: i128 = -(per_second as i128);
        let loss: u128 = accrued(rate as u64, delta_time);
        let room: i128 = current as i128 - i64::MIN as i128;
        if loss >= room as u128 {
            i64::MIN
        } else {
            (current as i128 - loss as i128) as i64
        }
    }
}

/// A pool that restores itself as time passes.
pub trait RegeneratingPool: Pool {
    fn regen_per_second(&self) -> (q: Self::Quantity)
        ensures
            q.units() == self@.regen_per_second,
    ;

    fn set_regen_per_second(&mut self, new_regen_per_second: Self::Quantity)
        ensures
            final(self)@ == old(self)@.with_regen(new_regen_per_second.units()),
            final(self)@.wf(),
    ;

    /// Lets `delta_time` of regeneration pass: the level moves by the
    /// regeneration rate times the time and stays within the pool's range.
    fn regenerate(&mut self, delta_time: Duration)
        ensures
            final(self)@ == old(self)@.regenerate(duration_nanos(delta_time)),
            final(self)@.wf(),
    ;
}

/// What an ability costs in the resource of the pool `P`.
#[derive(Debug, PartialEq, Eq)]
pub struct AbilityCost<P: Pool>(pub P::Quantity);

impl<P: Pool> Clone for AbilityCost<P> {
    fn clone(&self) -> (copy: Self)
        ensures
            copy == *self,
    {
        AbilityCost(self.0)
    }
}

impl<P: Pool> Copy for AbilityCost<P> {

}

/// The pool that holds nothing and never will.
#[derive(Debug, Default)]
pub struct NullPool;

impl View for NullPool {
    type V = PoolView;

    open spec fn view(&self) -> PoolView {
        PoolView { current: 0, max: 0, regen_per_second: 0 }
    }
}

impl Pool for NullPool {
    type Quantity = i64;

    open spec fn fixed_max() -> bool {
        true
    }

    fn current(&self) -> (q: i64) {
        assert(MIN_UNITS.units() == MIN_UNITS);
        MIN_UNITS
    }

    fn set_current(&mut self, _new_quantity: i64) -> (q: i64) {
        assert(MIN_UNITS.units() == MIN_UNITS);
        MIN_UNITS
    }

    fn max(&self) -> (q: i64) {
        assert(MIN_UNITS.units() == MIN_UNITS);
        MIN_UNITS
    }

    fn set_max(&mut self, _new_max: i64) -> (r: Result<(), MaxPoolLessThanMin>) {
        Ok(())
    }
}

/// One change to a pool's level.
pub enum PoolOp {
    /// An attempt to spend an amount.
    Expend(int),
    /// An amount given back.
    Replenish(int),
    /// A time of regeneration, in nanoseconds.
    Regenerate(nat),
}

impl PoolView {
    /// The pool after `op`.
    pub open spec fn apply(self, op: PoolOp) -> PoolView {
        match op {
            PoolOp::Expend(amount) => self.expend(amount),
            PoolOp::Replenish(amount) => self.replenish(amount),
            PoolOp::Regenerate(nanos) => self.regenerate(nanos),
        }
    }

    /// The pool after `ops`, one after the other.
    pub open spec fn apply_all(self, ops: Seq<PoolOp>) -> PoolView
        decreases ops.len(),
    {
        if ops.len() == 0 {
            self
        } else {
            self.apply_all(ops.drop_last()).apply(ops.last())
        }
    }
}

/// Whatever is spent, given back or regenerated, in whatever order and
/// however much: the level of a pool stays between the minimum and the
/// maximum, and the maximum and the regeneration rate stay what they were.
pub proof fn lemma_level_stays_in_bounds(pool: PoolView, ops: Seq<PoolOp>)
    requires
        pool.wf(),
    ensures
        pool.apply_all(ops).wf(),
        MIN_UNITS <= pool.apply_all(ops).current <= pool.apply_all(ops).max,
        pool.apply_all(ops).max == pool.max,
        pool.apply_all(ops).regen_per_second == pool.regen_per_second,
    decreases ops.len(),
{
    if ops.len() > 0 {
        lemma_level_stays_in_bounds(pool, ops.drop_last());
    }
}

/// Spending more than a pool holds is refused with `ResourceMissing` and
/// leaves the pool as it was. Spending what it holds, or less, takes exactly
/// that much.
pub proof fn lemma_expend_all_or_nothing(pool: PoolView, amount: int)
    requires
        pool.wf(),
    ensures
        amount > pool.current ==> pool.available(amount) is Err && pool.expend(amount) == pool,
        0 <= amount <= pool.current ==> pool.available(amount) is Ok && pool.expend(
            amount,
        ).current == pool.current - amount,
{
}

/// Regeneration needs nothing but time. At a rate that is not negative the
/// level never falls, and once at the maximum it stays there; no time at
/// all changes nothing.
pub proof fn lemma_regeneration_adds(pool: PoolView, nanos: nat)
    requires
        pool.wf(),
    ensures
        pool.regenerate(0) == pool,
        pool.regen_per_second >= 0 ==> pool.regenerate(nanos).current >= pool.current,
        pool.regen_per_second >= 0 && pool.current == pool.max ==> pool.regenerate(nanos) == pool,
        pool.regen_per_second <= 0 ==> pool.regenerate(nanos).current <= pool.current,
{
    assert(accrual(pool.regen_per_second as nat, 0) == 0) by (nonlinear_arith);
    assert(accrual((-pool.regen_per_second) as nat, 0) == 0) by (nonlinear_arith);
    assert(accrual(0, nanos) == 0) by (nonlinear_arith);
}

} // verus!
