//! Spans of simulated time.
//!
//! The public interface speaks `std::time::Duration`; inside, every span is a
//! whole number of nanoseconds, so that advancing a timer is exact integer
//! arithmetic and equal inputs give equal states.

use std::time::Duration;
use vstd::prelude::*;
use vstd::arithmetic::div_mod::lemma_hoist_over_denominator;

verus! {

/// Nanoseconds in one second.
pub const NANOS_PER_SEC: u128 = 1_000_000_000;

/// The longest span a `Duration` can hold, in nanoseconds:
/// `u64::MAX` whole seconds and 999,999,999 nanoseconds.
pub const MAX_NANOS: u128 = 18_446_744_073_709_551_615_999_999_999;

/// The whole seconds of a duration: the value of `Duration::as_secs`.
pub uninterp spec fn duration_secs(d: Duration) -> u64;

/// The part of a duration below one second, in nanoseconds: the value of
/// `Duration::subsec_nanos`.
pub uninterp spec fn duration_subsec_nanos(d: Duration) -> u32;

/// Trusted: `Duration::as_secs` returns the duration's whole seconds.
pub assume_specification[ Duration::as_secs ](d: &Duration) -> (secs: u64)
    ensures
        secs == duration_secs(*d),
;

/// Trusted: `Duration::subsec_nanos` returns the fractional part of the
/// duration in nanoseconds, which std documents to be below one billion.
pub assume_specification[ Duration::subsec_nanos ](d: &Duration) -> (nanos: u32)
    ensures
        nanos == duration_subsec_nanos(*d),
        nanos < 1_000_000_000,
;

/// Trusted: `Duration::new` builds the duration with the given whole seconds
/// and nanoseconds. With fewer than one billion nanoseconds nothing is
/// carried into the seconds, so the call cannot panic and both parts read
/// back as given.
pub assume_specification[ Duration::new ](secs: u64, nanos: u32) -> (d: Duration)
    requires
        nanos < 1_000_000_000,
    ensures
        duration_secs(d) == secs,
        duration_subsec_nanos(d) == nanos,
;

/// The length of a duration in nanoseconds.
pub open spec fn duration_nanos(d: Duration) -> nat {
    (duration_secs(d) * 1_000_000_000 + duration_subsec_nanos(d)) as nat
}

/// The length of `d` in nanoseconds.
pub fn to_nanos(d: Duration) -> (n: u128)
    ensures
        n == duration_nanos(d),
        n <= MAX_NANOS,
{
    let secs: u64 = d.as_secs();
    let sub: u32 = d.subsec_nanos();
    secs as u128 * NANOS_PER_SEC + sub as u128
}

/// The duration that is `n` nanoseconds long.
pub fn from_nanos(n: u128) -> (d: Duration)
    requires
        n <= MAX_NANOS,
    ensures
        duration_nanos(d) == n,
{
    let secs: u128 = n / NANOS_PER_SEC;
    let sub: u128 = n % NANOS_PER_SEC;
    Duration::new(secs as u64, sub as u32)
}

/// What a rate of `rate` units a second yields in `nanos` nanoseconds: the
/// exact product, rounded down to whole units.
pub open spec fn accrual(rate: nat, nanos: nat) -> nat {
    rate * nanos / 1_000_000_000
}

/// What a rate of `rate` units a second yields over `delta_time`.
pub fn accrued(rate: u64, delta_time: Duration) -> (a: u128)
    ensures
        a == accrual(rate as nat, duration_nanos(delta_time)),
{
    let secs: u64 = delta_time.as_secs();
    let sub: u32 = delta_time.subsec_nanos();
    proof {
        let r = rate as int;
        let s = secs as int;
        let f = sub as int;
        assert(0 <= r * s <= 0xffff_ffff_ffff_ffff * 0xffff_ffff_ffff_ffff) by (nonlinear_arith)
            requires
                0 <= r <= 0xffff_ffff_ffff_ffff,
                0 <= s <= 0xffff_ffff_ffff_ffff,
        ;
        assert(0 <= r * f <= 0xffff_ffff_ffff_ffff * 1_000_000_000) by (nonlinear_arith)
            requires
                0 <= r <= 0xffff_ffff_ffff_ffff,
                0 <= f <= 1_000_000_000,
        ;
        assert(r * (s * 1_000_000_000 + f) == r * f + (r * s) * 1_000_000_000)
            by (nonlinear_arith);
        lemma_hoist_over_denominator(r * f, r * s, 1_000_000_000);
    }
    let whole: u128 = rate as u128 * secs as u128;
    let part: u128 = rate as u128 * sub as u128 / NANOS_PER_SEC;
    whole + part
}

} // verus!
