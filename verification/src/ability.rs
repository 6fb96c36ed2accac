//! An ability: a cooldown and what using it costs, and the check-then-commit
//! protocol that gates its use.

use std::time::Duration;
use vstd::prelude::*;
use crate::CannotUseAbility;
use crate::cooldown::{Cooldown, CooldownView};
use crate::pool::{AbilityCost, Pool, PoolView, Quantity};
use crate::pools::life::{Life, LifePool};
use crate::pools::mana::{Mana, ManaPool};
use crate::time::{duration_nanos, to_nanos};

verus! {

/// What an ability is: its cooldown and the costs it declares, in units.
pub struct AbilityView {
    pub cooldown: CooldownView,
    pub mp_cost: Option<int>,
    pub lp_cost: Option<int>,
}

impl AbilityView {
    pub open spec fn wf(self) -> bool {
        self.cooldown.wf()
    }

    pub open spec fn affords_mana(self, mana: PoolView) -> bool {
        self.mp_cost matches Some(cost) ==> mana.can_afford(cost)
    }

    pub open spec fn affords_life(self, life: PoolView) -> bool {
        self.lp_cost matches Some(cost) ==> life.can_afford(cost)
    }

    /// Whether the ability can be used against these pools, and if not, why.
    /// The cooldown is asked first and takes precedence; then the costs, mana
    /// before life.
    pub open spec fn readiness(self, mana: PoolView, life: PoolView) -> Result<
        (),
        CannotUseAbility,
    > {
        if !self.cooldown.is_ready() {
            Err(CannotUseAbility::OnCooldown)
        } else if !self.affords_mana(mana) {
            Err(CannotUseAbility::ResourceMissing)
        } else if !self.affords_life(life) {
            Err(CannotUseAbility::ResourceMissing)
        } else {
            Ok(())
        }
    }

    /// The ability right after it was used.
    pub open spec fn triggered(self) -> AbilityView {
        AbilityView { cooldown: self.cooldown.triggered(), ..self }
    }

    /// The mana pool after the ability's mana cost, if it has one, was paid.
    pub open spec fn mana_after(self, mana: PoolView) -> PoolView {
        match self.mp_cost {
            Some(cost) => mana.expend(cost),
            None => mana,
        }
    }

    /// The life pool after the ability's life cost, if it has one, was paid.
    pub open spec fn life_after(self, life: PoolView) -> PoolView {
        match self.lp_cost {
            Some(cost) => life.expend(cost),
            None => life,
        }
    }
}

/// An ability as it stands: its cooldown and the costs it declares. A cost
/// that is not declared is not asked for.
#[derive(Clone, Copy, Debug, PartialEq, Eq)]
pub struct AbilityState {
    pub cooldown: Cooldown,
    pub mp_cost: Option<AbilityCost<ManaPool>>,
    pub lp_cost: Option<AbilityCost<LifePool>>,
}

/// The declared amount of a cost, in units.
pub open spec fn mana_cost_units(cost: Option<AbilityCost<ManaPool>>) -> Option<int> {
    match cost {
        Some(c) => Some(c.0.0 as int),
        None => None,
    }
}

/// The declared amount of a cost, in units.
pub open spec fn life_cost_units(cost: Option<AbilityCost<LifePool>>) -> Option<int> {
    match cost {
        Some(c) => Some(c.0.0 as int),
        None => None,
    }
}

impl View for AbilityState {
    type V = AbilityView;

    open spec fn view(&self) -> AbilityView {
        AbilityView {
            cooldown: self.cooldown@,
            mp_cost: mana_cost_units(self.mp_cost),
            lp_cost: life_cost_units(self.lp_cost),
        }
    }
}

impl AbilityState {
    /// An ability that costs `mp_cost` mana and `life_cost` life and takes
    /// `cooldown`, which is not zero, to recharge. It starts ready.
    pub fn new(mp_cost: Mana, life_cost: Life, cooldown: Duration) -> (ability: Self)
        requires
            duration_nanos(cooldown) > 0,
        ensures
            ability@.cooldown == CooldownView::fresh(duration_nanos(cooldown)),
            ability@.mp_cost == Some(mp_cost.0 as int),
            ability@.lp_cost == Some(life_cost.0 as int),
            ability@.wf(),
    {
        Self {
            cooldown: Cooldown::new(cooldown),
            mp_cost: Some(AbilityCost::<ManaPool>(mp_cost)),
            lp_cost: Some(AbilityCost::<LifePool>(life_cost)),
        }
    }

    /// The ability that [`AbilityState::new`] makes of the three, or nothing
    /// if `cooldown` is zero.
    pub fn try_new(mp_cost: Mana, life_cost: Life, cooldown: Duration) -> (ability: Option<Self>)
        ensures
            ability is Some <==> duration_nanos(cooldown) > 0,
            ability is Some ==> ability->0@.cooldown == CooldownView::fresh(
                duration_nanos(cooldown),
            ),
            ability is Some ==> ability->0@.mp_cost == Some(mp_cost.0 as int),
            ability is Some ==> ability->0@.lp_cost == Some(life_cost.0 as int),
    {
        if to_nanos(cooldown) > 0 {
            Some(Self::new(mp_cost, life_cost, cooldown))
        } else {
            None
        }
    }

    /// Whether the ability can be used now: the cooldown must be ready and
    /// every declared cost affordable. Nothing is changed.
    pub fn ready(&self, mana: &ManaPool, life: &LifePool) -> (r: Result<(), CannotUseAbility>)
        ensures
            r == self@.readiness(mana@, life@),
    {
        self.cooldown.ready()?;

        if let Some(mana_cost) = &self.mp_cost {
            assert(mana_cost.0.units() == mana_cost.0.0);
            mana.available(mana_cost.0)?;
        }
        if let Some(life_cost) = &self.lp_cost {
            assert(life_cost.0.units() == life_cost.0.0);
            life.available(life_cost.0)?;
        }
        Ok(())
    }

    /// Uses the ability if it is ready: the cooldown starts over and every
    /// declared cost is paid. If it is not ready, for whatever reason,
    /// nothing at all is changed.
    pub fn trigger(&mut self, mana: &mut ManaPool, life: &mut LifePool) -> (r: Result<
        (),
        CannotUseAbility,
    >)
        ensures
            r == old(self)@.readiness(old(mana)@, old(life)@),
            r is Ok ==> final(self)@ == old(self)@.triggered(),
            r is Ok ==> final(mana)@ == old(self)@.mana_after(old(mana)@),
            r is Ok ==> final(life)@ == old(self)@.life_after(old(life)@),
            r is Err ==> *final(self) == *old(self),
            r is Err ==> *final(mana) == *old(mana),
            r is Err ==> *final(life) == *old(life),
            final(self)@.wf(),
            final(mana)@.wf(),
            final(life)@.wf(),
    {
        proof {
            use_type_invariant(&self.cooldown);
            use_type_invariant(&*mana);
            use_type_invariant(&*life);
        }
        self.ready(mana, life)?;

        self.cooldown.trigger()?;

        if let Some(mana_cost) = &self.mp_cost {
            assert(mana_cost.0.units() == mana_cost.0.0);
            mana.expend(mana_cost.0)?;
        }
        if let Some(life_cost) = &self.lp_cost {
            assert(life_cost.0.units() == life_cost.0.0);
            life.expend(life_cost.0)?;
        }
        Ok(())
    }
}

/// Using an ability is all or nothing. If the cooldown is not ready or any
/// one declared cost cannot be afforded, the ability is not ready, whatever
/// the other costs are. And an ability that is ready pays every declared
/// cost in full and starts its cooldown over.
pub proof fn lemma_trigger_all_or_nothing(ability: AbilityView, mana: PoolView, life: PoolView)
    requires
        ability.wf(),
        mana.wf(),
        life.wf(),
    ensures
        !ability.cooldown.is_ready() ==> ability.readiness(mana, life) is Err,
        !ability.affords_mana(mana) ==> ability.readiness(mana, life) is Err,
        !ability.affords_life(life) ==> ability.readiness(mana, life) is Err,
        ability.readiness(mana, life) is Ok ==> {
            &&& ability.affords_mana(mana)
            &&& ability.affords_life(life)
            &&& !ability.triggered().cooldown.is_ready()
            &&& ability.mana_after(mana).wf()
            &&& ability.life_after(life).wf()
        },
{
}

} // verus!
