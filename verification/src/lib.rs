//! The ability and resource simulation of the game: bounded regenerating
//! pools, cooldowns, hold-to-charge activation and the check-then-commit
//! trigger, stepped at a fixed rate.
//!
//! The step is the same wherever it runs. The server runs it to decide, a
//! client runs it ahead of the server to predict, and a client that
//! predicted wrongly goes back to a confirmed world and runs it again. So
//! everything here is whole-number arithmetic on plain values: a tick is a
//! function of the world, the time that passes and the input edges, and
//! nothing else.
//!
//! From the leaves up:
//! - [`time`]: durations as whole nanoseconds.
//! - [`pool`], [`pools`]: quantities and the pools that hold them.
//! - [`cooldown`], [`charge`]: the two timers of an ability.
//! - [`ability`]: an ability's readiness check and its all-or-nothing use.
//! - [`ability_map`]: which ability each action of a character is bound to.
//! - [`activation`]: an ability in play, pressed to charge and released to
//!   trigger.
//! - [`trigger`]: what one character's presses and releases do.
//! - [`simulation`]: the tick, and why two runs of it agree.
//! - [`abilities`]: what the effects of the game's abilities amount to.
//! - [`animation`]: the frame that a looping animation shows.

use vstd::prelude::*;

pub mod abilities;
pub mod ability;
pub mod ability_map;
pub mod activation;
pub mod animation;
pub mod charge;
pub mod cooldown;
pub mod pool;
pub mod pools;
pub mod simulation;
pub mod time;
pub mod trigger;

verus! {

/// Why an ability could not be used. None of these is a failure of the
/// simulation: the attempt simply did nothing.
#[derive(Debug, Clone, Copy, PartialEq, Eq, Structural)]
pub enum CannotUseAbility {
    /// The ability is still recharging.
    OnCooldown,
    /// A pool holds less than the ability costs.
    ResourceMissing,
    /// The action is not bound to any ability.
    AbilityNotBound,
}

} // verus!
