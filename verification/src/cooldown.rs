//! The recharge timer that gates the reuse of an ability.

use std::time::Duration;
use vstd::prelude::*;
use crate::CannotUseAbility;
use crate::time::{duration_nanos, from_nanos, to_nanos, MAX_NANOS};

verus! {

/// What a cooldown is, in nanoseconds: how long it takes to recharge and how
/// much of that has passed since it was last triggered.
pub struct CooldownView {
    pub duration: nat,
    pub elapsed: nat,
}

impl CooldownView {
    /// The duration is positive and fits a `Duration`, and the elapsed time
    /// never exceeds it.
    pub open spec fn wf(self) -> bool {
        &&& 0 < self.duration <= MAX_NANOS
        &&& self.elapsed <= self.duration
    }

    /// A freshly made cooldown of `duration` nanoseconds: fully recharged.
    pub open spec fn fresh(duration: nat) -> CooldownView {
        CooldownView { duration, elapsed: duration }
    }

    pub open spec fn is_ready(self) -> bool {
        self.elapsed >= self.duration
    }

    /// The answer of a readiness check.
    pub open spec fn ready(self) -> Result<(), CannotUseAbility> {
        if self.is_ready() {
            Ok(())
        } else {
            Err(CannotUseAbility::OnCooldown)
        }
    }

    /// The cooldown after `nanos` more nanoseconds: the elapsed time grows
    /// and stops at the duration.
    pub open spec fn tick(self, nanos: nat) -> CooldownView {
        if self.elapsed + nanos >= self.duration {
            CooldownView { elapsed: self.duration, ..self }
        } else {
            CooldownView { elapsed: self.elapsed + nanos, ..self }
        }
    }

    /// The cooldown right after it was used: nothing has elapsed.
    pub open spec fn triggered(self) -> CooldownView {
        CooldownView { elapsed: 0, ..self }
    }

    /// The cooldown forced back to ready.
    pub open spec fn refreshed(self) -> CooldownView {
        CooldownView { elapsed: self.duration, ..self }
    }

    /// The time still to wait, never below zero.
    pub open spec fn remaining(self) -> nat {
        if self.duration >= self.elapsed {
            (self.duration - self.elapsed) as nat
        } else {
            0
        }
    }
}

/// A recharge timer. A new cooldown is ready; using it starts the recharge,
/// and ticking it brings it back to ready.
#[derive(Clone, Copy, Debug, PartialEq, Eq, Structural)]
pub struct Cooldown {
    cd: u128,
    /// Time elapsed since the cooldown was last triggered
    elapsed: u128,
}

impl View for Cooldown {
    type V = CooldownView;

    closed spec fn view(&self) -> CooldownView {
        CooldownView { duration: self.cd as nat, elapsed: self.elapsed as nat }
    }
}

impl Cooldown {
    #[verifier::type_invariant]
    pub open spec fn inv(&self) -> bool {
        self@.wf()
    }

    /// A cooldown of the given, non-zero duration. It starts ready.
    pub fn new(cd: Duration) -> (c: Self)
        requires
            duration_nanos(cd) > 0,
        ensures
            c@ == CooldownView::fresh(duration_nanos(cd)),
            c@.wf(),
    {
        let nanos: u128 = to_nanos(cd);
        Self { cd: nanos, elapsed: nanos }
    }

    /// A cooldown of the given duration, ready, or nothing if the duration is
    /// zero.
    pub fn try_new(cd: Duration) -> (c: Option<Self>)
        ensures
            c is Some <==> duration_nanos(cd) > 0,
            c is Some ==> c->0@ == CooldownView::fresh(duration_nanos(cd)),
    {
        if to_nanos(cd) > 0 {
            Some(Self::new(cd))
        } else {
            None
        }
    }

    /// The cooldown of duration `cd` of which `elapsed` has passed, as it
    /// was read from [`Cooldown::duration`] and [`Cooldown::elapsed`]; or
    /// nothing if the two are not those of a cooldown: if the duration is
    /// zero or less than the elapsed time.
    pub fn restore(cd: Duration, elapsed: Duration) -> (c: Option<Self>)
        ensures
            c is Some <==> 0 < duration_nanos(cd) && duration_nanos(elapsed) <= duration_nanos(cd),
            c is Some ==> c->0@.duration == duration_nanos(cd),
            c is Some ==> c->0@.elapsed == duration_nanos(elapsed),
    {
        let total: u128 = to_nanos(cd);
        let passed: u128 = to_nanos(elapsed);
        if total > 0 && passed <= total {
            Some(Self { cd: total, elapsed: passed })
        } else {
            None
        }
    }

    /// How long the cooldown takes to recharge.
    pub fn duration(&self) -> (d: Duration)
        ensures
            duration_nanos(d) == self@.duration,
    {
        proof {
            use_type_invariant(self);
        }
        from_nanos(self.cd)
    }

    /// The time elapsed since the cooldown was last triggered, at most its
    /// duration.
    pub fn elapsed(&self) -> (d: Duration)
        ensures
            duration_nanos(d) == self@.elapsed,
    {
        proof {
            use_type_invariant(self);
        }
        from_nanos(self.elapsed)
    }

    /// Lets `delta_time` pass. Once the cooldown is ready nothing changes.
    pub fn tick(&mut self, delta_time: Duration)
        ensures
            final(self)@ == old(self)@.tick(duration_nanos(delta_time)),
            final(self)@.wf(),
    {
        proof {
            use_type_invariant(&*self);
        }
        if self.elapsed == self.cd {
            return ;
        }
        let delta: u128 = to_nanos(delta_time);
        let left: u128 = self.cd - self.elapsed;
        if delta >= left {
            self.elapsed = self.cd;
        } else {
            self.elapsed = self.elapsed + delta;
        }
    }

    /// `Ok` if the ability is ready to be used, `OnCooldown` otherwise.
    pub fn ready(&self) -> (r: Result<(), CannotUseAbility>)
        ensures
            r == self@.ready(),
    {
        if self.elapsed >= self.cd {
            Ok(())
        } else {
            Err(CannotUseAbility::OnCooldown)
        }
    }

    /// Reset the cooldown. The ability will be ready immediately.
    pub fn refresh(&mut self)
        ensures
            final(self)@ == old(self)@.refreshed(),
            final(self)@.wf(),
    {
        proof {
            use_type_invariant(&*self);
        }
        self.elapsed = self.cd;
    }

    /// Use the cooldown if and only if it is ready, then begin the recharge.
    /// A cooldown that is not ready is left as it was.
    pub fn trigger(&mut self) -> (r: Result<(), CannotUseAbility>)
        ensures
            r == old(self)@.ready(),
            r is Ok ==> final(self)@ == old(self)@.triggered(),
            r is Err ==> *final(self) == *old(self),
            final(self)@.wf(),
    {
        proof {
            use_type_invariant(&*self);
        }
        match self.ready() {
            Ok(()) => {
                self.elapsed = 0;
                Ok(())
            },
            Err(e) => Err(e),
        }
    }

    /// The time left until the cooldown is ready.
    pub fn remaining(&self) -> (d: Duration)
        ensures
            duration_nanos(d) == self@.remaining(),
    {
        proof {
            use_type_invariant(self);
        }
        from_nanos(self.cd - self.elapsed)
    }
}

/// A cooldown is used when it is ready and only then. While less than the
/// duration has elapsed a trigger is refused with `OnCooldown`. Once the
/// duration has elapsed a trigger succeeds and nothing has elapsed after
/// it, so an immediate second trigger is refused.
pub proof fn lemma_repeat_trigger_fails(c: CooldownView)
    requires
        c.wf(),
    ensures
        c.elapsed < c.duration ==> c.ready() is Err,
        c.elapsed >= c.duration ==> c.ready() is Ok,
        c.triggered().elapsed == 0,
        c.triggered().wf(),
        !c.triggered().is_ready(),
        c.triggered().ready() is Err,
{
}

/// Ticking never overshoots: however long the step, the elapsed time stays
/// within the duration, and a step at least as long as the remaining time
/// makes the cooldown ready.
pub proof fn lemma_tick_bounded(c: CooldownView, nanos: nat)
    requires
        c.wf(),
    ensures
        c.tick(nanos).wf(),
        c.tick(nanos).duration == c.duration,
        c.tick(nanos).remaining() <= c.remaining(),
        nanos >= c.remaining() <==> c.tick(nanos).is_ready(),
{
}

/// A cooldown is nothing but what its view shows: two cooldowns that look
/// the same are the same.
pub proof fn lemma_same_view_same_cooldown(a: Cooldown, b: Cooldown)
    requires
        a@ == b@,
    ensures
        a == b,
{
}

} // verus!
