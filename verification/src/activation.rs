//! An ability in play: pressed to start charging, released to trigger.

use std::time::Duration;
use vstd::prelude::*;
use crate::CannotUseAbility;
use crate::ability::{AbilityState, AbilityView};
use crate::charge::{advanced, AbilityCharge};
use crate::pool::PoolView;
use crate::pools::life::LifePool;
use crate::pools::mana::ManaPool;
use crate::time::{duration_nanos, MAX_NANOS};

verus! {

/// Where an ability stands between a press and a release.
#[derive(Clone, Copy, Debug, PartialEq, Eq, Structural)]
pub enum Activation {
    /// Not held.
    Idle,
    /// Held since a press that found the ability ready.
    Charging,
}

/// The charge `charge` after `nanos` nanoseconds in the state `activation`:
/// it grows while the ability is charging, and only then.
pub open spec fn held(activation: Activation, charge: nat, nanos: nat) -> nat {
    match activation {
        Activation::Charging => advanced(charge, nanos),
        Activation::Idle => charge,
    }
}

impl Activation {
    /// Lets `delta_time` pass on the charge of an ability in this state.
    pub fn advance(&self, charge: &mut AbilityCharge, delta_time: Duration)
        ensures
            final(charge)@ == held(*self, old(charge)@, duration_nanos(delta_time)),
            final(charge)@ <= MAX_NANOS,
    {
        proof {
            use_type_invariant(&*charge);
        }
        match self {
            Activation::Charging => {
                charge.advance(delta_time);
            },
            Activation::Idle => {},
        }
    }
}

/// What an ability in play is.
pub struct ActiveAbilityView {
    pub id: u64,
    pub state: AbilityView,
    pub charge: nat,
    pub activation: Activation,
}

/// What a release leads to: the ability and the two pools afterwards, and
/// whether the ability was used.
pub struct Released {
    pub ability: ActiveAbilityView,
    pub mana: PoolView,
    pub life: PoolView,
    pub outcome: Result<(), CannotUseAbility>,
}

impl ActiveAbilityView {
    pub open spec fn wf(self) -> bool {
        &&& self.state.wf()
        &&& self.charge <= MAX_NANOS
    }

    /// The ability after `nanos` nanoseconds of recharging.
    pub open spec fn cooled(self, nanos: nat) -> ActiveAbilityView {
        ActiveAbilityView {
            state: AbilityView { cooldown: self.state.cooldown.tick(nanos), ..self.state },
            ..self
        }
    }

    /// The ability after `nanos` nanoseconds of holding: the charge grows
    /// while the ability is charging, and only then.
    pub open spec fn charged(self, nanos: nat) -> ActiveAbilityView {
        ActiveAbilityView { charge: held(self.activation, self.charge, nanos), ..self }
    }

    /// The ability after its action was pressed: if it is ready against the
    /// pools it starts charging from zero, if not it stays as it is.
    pub open spec fn pressed(self, mana: PoolView, life: PoolView) -> ActiveAbilityView {
        if self.state.readiness(mana, life) is Ok {
            ActiveAbilityView { charge: 0, activation: Activation::Charging, ..self }
        } else {
            self
        }
    }

    /// What releasing the ability's action leads to. The ability is idle
    /// afterwards in any case. If it is ready it is used: its cooldown
    /// starts over and its costs are paid. If not, the pools and the
    /// cooldown are untouched. The charge is left for the effect to read.
    pub open spec fn released(self, mana: PoolView, life: PoolView) -> Released {
        let outcome = self.state.readiness(mana, life);
        if outcome is Ok {
            Released {
                ability: ActiveAbilityView {
                    state: self.state.triggered(),
                    activation: Activation::Idle,
                    ..self
                },
                mana: self.state.mana_after(mana),
                life: self.state.life_after(life),
                outcome,
            }
        } else {
            Released {
                ability: ActiveAbilityView { activation: Activation::Idle, ..self },
                mana,
                life,
                outcome,
            }
        }
    }
}

/// An ability in play: the ability itself under its identifier, the charge
/// of its current or last activation, and whether it is being held.
#[derive(Clone, Copy, Debug, PartialEq, Eq)]
pub struct Ability {
    pub id: u64,
    pub state: AbilityState,
    pub charge: AbilityCharge,
    pub activation: Activation,
}

impl View for Ability {
    type V = ActiveAbilityView;

    open spec fn view(&self) -> ActiveAbilityView {
        ActiveAbilityView {
            id: self.id,
            state: self.state@,
            charge: self.charge@,
            activation: self.activation,
        }
    }
}

impl Ability {
    /// Puts `state` into play under `id`: idle, with no charge.
    pub fn new(id: u64, state: AbilityState) -> (ability: Self)
        ensures
            ability.id == id,
            ability.state == state,
            ability.charge@ == 0,
            ability.activation == Activation::Idle,
    {
        Ability { id, state, charge: AbilityCharge::default(), activation: Activation::Idle }
    }

    /// Lets `delta_time` of recharging pass.
    pub fn tick_cooldown(&mut self, delta_time: Duration)
        ensures
            final(self)@ == old(self)@.cooled(duration_nanos(delta_time)),
            final(self)@.state.wf(),
    {
        self.state.cooldown.tick(delta_time);
    }

    /// Lets `delta_time` of holding pass, if the ability is being held.
    pub fn tick_charge(&mut self, delta_time: Duration)
        ensures
            final(self)@ == old(self)@.charged(duration_nanos(delta_time)),
            final(self)@.charge <= MAX_NANOS,
    {
        self.activation.advance(&mut self.charge, delta_time);
    }

    /// The action bound to the ability was pressed: if the ability is ready
    /// it starts charging. Returns whether it was ready, and if not, why.
    pub fn press(&mut self, mana: &ManaPool, life: &LifePool) -> (r: Result<(), CannotUseAbility>)
        ensures
            r == old(self)@.state.readiness(mana@, life@),
            final(self)@ == old(self)@.pressed(mana@, life@),
    {
        let r = self.state.ready(mana, life);
        if r.is_ok() {
            self.charge.start();
            self.activation = Activation::Charging;
        }
        r
    }

    /// The action bound to the ability was released: the ability stops
    /// charging and is used if it is ready. Returns whether it was used, and
    /// if not, why.
    pub fn release(&mut self, mana: &mut ManaPool, life: &mut LifePool) -> (r: Result<
        (),
        CannotUseAbility,
    >)
        ensures
            r == old(self)@.released(old(mana)@, old(life)@).outcome,
            final(self)@ == old(self)@.released(old(mana)@, old(life)@).ability,
            final(mana)@ == old(self)@.released(old(mana)@, old(life)@).mana,
            final(life)@ == old(self)@.released(old(mana)@, old(life)@).life,
            final(mana)@.wf(),
            final(life)@.wf(),
    {
        self.activation = Activation::Idle;
        self.state.trigger(mana, life)
    }
}

/// The activation of an ability changes in two ways only. A press takes it
/// to charging, from zero, if the ability is ready, and leaves it as it is
/// if not. A release takes it to idle, whatever the outcome. The passing of
/// time changes neither the activation nor, while idle, the charge.
pub proof fn lemma_activation_transitions(
    ability: ActiveAbilityView,
    mana: PoolView,
    life: PoolView,
    nanos: nat,
)
    ensures
        ability.state.readiness(mana, life) is Ok ==> ability.pressed(mana, life).activation
            == Activation::Charging && ability.pressed(mana, life).charge == 0,
        ability.state.readiness(mana, life) is Err ==> ability.pressed(mana, life) == ability,
        ability.released(mana, life).ability.activation == Activation::Idle,
        ability.released(mana, life).ability.charge == ability.charge,
        ability.cooled(nanos).activation == ability.activation,
        ability.charged(nanos).activation == ability.activation,
        ability.activation == Activation::Idle ==> ability.charged(nanos) == ability,
{
}

/// A release that does not use the ability costs nothing: the pools and the
/// cooldown are what they were. One that uses it pays every declared cost
/// and starts the cooldown over.
pub proof fn lemma_release_all_or_nothing(ability: ActiveAbilityView, mana: PoolView, life: PoolView)
    ensures
        ability.released(mana, life).outcome == ability.state.readiness(mana, life),
        ability.released(mana, life).outcome is Err ==> {
            &&& ability.released(mana, life).mana == mana
            &&& ability.released(mana, life).life == life
            &&& ability.released(mana, life).ability.state == ability.state
        },
        ability.released(mana, life).outcome is Ok ==> {
            &&& ability.released(mana, life).mana == ability.state.mana_after(mana)
            &&& ability.released(mana, life).life == ability.state.life_after(life)
            &&& ability.released(mana, life).ability.state.cooldown.elapsed == 0
        },
{
}

} // verus!
