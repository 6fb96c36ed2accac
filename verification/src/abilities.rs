//! The abilities of the game and what their effects amount to.

use vstd::prelude::*;
use vstd::arithmetic::div_mod::lemma_hoist_over_denominator;
use crate::charge::AbilityCharge;
use crate::time::{accrual, accrued};

verus! {

/// Marks an ability as the dodge: a dash in the direction of movement that
/// goes further the longer it was charged.
#[derive(Clone, Copy, Debug, PartialEq, Eq, Structural)]
pub struct Dodge;

/// How many seconds of movement an uncharged dodge is worth.
pub const DODGE_SECONDS: u64 = 3;

/// A magnitude of `base` scaled by a charge of `charge_nanos` nanoseconds:
/// once for the release itself and once more for every second the charge
/// was held, rounded down to a whole unit.
pub open spec fn charge_scaled(base: nat, charge_nanos: nat) -> nat {
    base * (charge_nanos + 1_000_000_000) / 1_000_000_000
}

/// How far a dodge takes a character that moves `move_speed` units a second
/// after a charge of `charge_nanos` nanoseconds, as far as a `u64` can say.
pub open spec fn dodge_reach(move_speed: nat, charge_nanos: nat) -> nat {
    let distance = charge_scaled(move_speed * DODGE_SECONDS as nat, charge_nanos);
    if distance > u64::MAX {
        u64::MAX as nat
    } else {
        distance
    }
}

/// Scaling by a charge never shrinks: the result is the base plus what the
/// base accrues over the time held.
pub proof fn lemma_charge_scaled(base: nat, charge_nanos: nat)
    ensures
        charge_scaled(base, charge_nanos) == base + accrual(base, charge_nanos),
        charge_scaled(base, 0) == base,
{
    let b = base as int;
    let n = charge_nanos as int;
    assert(b * (n + 1_000_000_000) == b * n + b * 1_000_000_000) by (nonlinear_arith);
    lemma_hoist_over_denominator(b * n, b, 1_000_000_000);
    assert(b * 0 == 0) by (nonlinear_arith);
}

/// How far the dodge takes a character that moves `move_speed` units a
/// second, released after `charge`. The distance is in the units of the
/// speed.
pub fn dodge_distance(move_speed: u64, charge: &AbilityCharge) -> (distance: u64)
    ensures
        distance == dodge_reach(move_speed as nat, charge@),
{
    let base: u128 = move_speed as u128 * DODGE_SECONDS as u128;
    proof {
        lemma_charge_scaled(base as nat, charge@);
    }
    if base > u64::MAX as u128 {
        return u64::MAX;
    }
    let extra: u128 = accrued(base as u64, charge.duration());
    let room: u128 = u64::MAX as u128 - base;
    if extra > room {
        u64::MAX
    } else {
        (base + extra) as u64
    }
}

} // verus!
