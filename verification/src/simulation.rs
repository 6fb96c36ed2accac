//! The fixed-rate simulation step: regeneration, cooldowns, charges, then
//! the presses and releases of the tick, always in this order.

use std::time::Duration;
use vstd::prelude::*;
use crate::activation::{Ability, ActiveAbilityView};
use crate::pool::RegeneratingPool;
use crate::time::{duration_nanos, MAX_NANOS};
use crate::trigger::{
    abilities_wf, ability_ids, ability_views, lemma_press_actions_keep_bounds,
    lemma_release_actions_keep_bounds, press_actions, release_actions,
    start_charging_abilities, trigger_bound_abilities, triggering, ActionEdges, Character,
    CharacterView, EdgesView, TriggerAbility,
};

verus! {

/// What each of the characters is.
pub open spec fn character_views(characters: Seq<Character>) -> Seq<CharacterView> {
    Seq::new(characters.len(), |i: int| characters[i]@)
}

/// What each character's input edges are.
pub open spec fn edges_views(inputs: Seq<ActionEdges>) -> Seq<EdgesView> {
    Seq::new(inputs.len(), |i: int| inputs[i]@)
}

/// All characters after `nanos` nanoseconds of regeneration.
pub open spec fn regenerated(characters: Seq<CharacterView>, nanos: nat) -> Seq<CharacterView> {
    Seq::new(characters.len(), |i: int| characters[i].regenerated(nanos))
}

/// All abilities after `nanos` nanoseconds of recharging.
pub open spec fn cooled(abilities: Seq<ActiveAbilityView>, nanos: nat) -> Seq<ActiveAbilityView> {
    Seq::new(abilities.len(), |i: int| abilities[i].cooled(nanos))
}

/// All abilities after `nanos` nanoseconds of holding.
pub open spec fn charged(abilities: Seq<ActiveAbilityView>, nanos: nat) -> Seq<ActiveAbilityView> {
    Seq::new(abilities.len(), |i: int| abilities[i].charged(nanos))
}

/// Lets `delta_time` of regeneration pass on every character's pools.
pub fn tick_pools_regen(characters: &mut Vec<Character>, delta_time: Duration)
    ensures
        character_views(final(characters)@) == regenerated(
            character_views(old(characters)@),
            duration_nanos(delta_time),
        ),
        characters_wf(character_views(final(characters)@)),
{
    let ghost nanos = duration_nanos(delta_time);
    let mut i: usize = 0;
    while i < characters.len()
        invariant
            i <= characters.len(),
            characters.len() == old(characters).len(),
            nanos == duration_nanos(delta_time),
            forall|j: int| 0 <= j < i ==> (#[trigger] characters@[j])@ == old(
                characters,
            )@[j]@.regenerated(nanos),
            forall|j: int| 0 <= j < i ==> (#[trigger] characters@[j])@.wf(),
            forall|j: int| i <= j < characters.len() ==> #[trigger] characters@[j] == old(
                characters,
            )@[j],
        decreases characters.len() - i,
    {
        characters[i].life.regenerate(delta_time);
        characters[i].mana.regenerate(delta_time);
        i = i + 1;
    }
    assert(character_views(characters@) =~= regenerated(character_views(old(characters)@), nanos));
}

/// Lets `delta_time` of recharging pass on every ability's cooldown.
pub fn tick_ability_cds(abilities: &mut Vec<Ability>, delta_time: Duration)
    ensures
        ability_views(final(abilities)@) == cooled(
            ability_views(old(abilities)@),
            duration_nanos(delta_time),
        ),
        forall|k: int|
            0 <= k < final(abilities)@.len() ==> (#[trigger] ability_views(
                final(abilities)@,
            )[k]).state.wf(),
{
    let ghost nanos = duration_nanos(delta_time);
    let mut i: usize = 0;
    while i < abilities.len()
        invariant
            i <= abilities.len(),
            abilities.len() == old(abilities).len(),
            nanos == duration_nanos(delta_time),
            forall|j: int| 0 <= j < i ==> (#[trigger] abilities@[j])@ == old(
                abilities,
            )@[j]@.cooled(nanos),
            forall|j: int| 0 <= j < i ==> (#[trigger] abilities@[j])@.state.wf(),
            forall|j: int| i <= j < abilities.len() ==> #[trigger] abilities@[j] == old(
                abilities,
            )@[j],
        decreases abilities.len() - i,
    {
        abilities[i].tick_cooldown(delta_time);
        i = i + 1;
    }
    assert(ability_views(abilities@) =~= cooled(ability_views(old(abilities)@), nanos));
}

/// Lets `delta_time` of holding pass on the charge of every ability that is
/// being held.
pub fn tick_ability_charge(abilities: &mut Vec<Ability>, delta_time: Duration)
    ensures
        ability_views(final(abilities)@) == charged(
            ability_views(old(abilities)@),
            duration_nanos(delta_time),
        ),
        forall|k: int|
            0 <= k < final(abilities)@.len() ==> (#[trigger] ability_views(
                final(abilities)@,
            )[k]).charge <= MAX_NANOS,
{
    let ghost nanos = duration_nanos(delta_time);
    let mut i: usize = 0;
    while i < abilities.len()
        invariant
            i <= abilities.len(),
            abilities.len() == old(abilities).len(),
            nanos == duration_nanos(delta_time),
            forall|j: int| 0 <= j < i ==> (#[trigger] abilities@[j])@ == old(
                abilities,
            )@[j]@.charged(nanos),
            forall|j: int| 0 <= j < i ==> (#[trigger] abilities@[j])@.charge <= MAX_NANOS,
            forall|j: int| i <= j < abilities.len() ==> #[trigger] abilities@[j] == old(
                abilities,
            )@[j],
        decreases abilities.len() - i,
    {
        abilities[i].tick_charge(delta_time);
        i = i + 1;
    }
    assert(ability_views(abilities@) =~= charged(ability_views(old(abilities)@), nanos));
}

/// Everything the simulation step works on: the characters and the
/// abilities in play, each in a fixed order.
#[derive(Debug, PartialEq, Eq)]
pub struct Simulation {
    pub characters: Vec<Character>,
    pub abilities: Vec<Ability>,
}

/// What the simulated world is.
pub struct SimulationView {
    pub characters: Seq<CharacterView>,
    pub abilities: Seq<ActiveAbilityView>,
}

/// What a tick leads to: the world after it and the usages it produced, in
/// the order in which they happened.
pub struct Ticked {
    pub simulation: SimulationView,
    pub events: Seq<TriggerAbility>,
}

impl View for Simulation {
    type V = SimulationView;

    open spec fn view(&self) -> SimulationView {
        SimulationView {
            characters: character_views(self.characters@),
            abilities: ability_views(self.abilities@),
        }
    }
}

/// The input edges of the character at place `i`. A character for which no
/// edges were handed in has none.
pub open spec fn edges_at(inputs: Seq<EdgesView>, i: int) -> EdgesView {
    if 0 <= i < inputs.len() {
        inputs[i]
    } else {
        EdgesView { just_pressed: Seq::empty(), just_released: Seq::empty() }
    }
}

impl SimulationView {
    /// The world after `nanos` nanoseconds have passed: pools regenerated,
    /// cooldowns recharged, and charges grown where an ability is held.
    pub open spec fn advanced(self, nanos: nat) -> SimulationView {
        SimulationView {
            characters: regenerated(self.characters, nanos),
            abilities: charged(cooled(self.abilities, nanos), nanos),
        }
    }

    /// The world after the first `n` characters, in their order, have had
    /// their presses handled.
    pub open spec fn pressed(self, inputs: Seq<EdgesView>, n: nat) -> SimulationView
        decreases n,
    {
        if n == 0 || n > self.characters.len() {
            self
        } else {
            let before = self.pressed(inputs, (n - 1) as nat);
            SimulationView {
                abilities: press_actions(
                    before.abilities,
                    before.characters[n - 1],
                    edges_at(inputs, n - 1).just_pressed,
                ),
                ..before
            }
        }
    }

    /// The world and the usages after the first `n` characters, in their
    /// order, have had their releases handled.
    pub open spec fn released(self, inputs: Seq<EdgesView>, n: nat) -> Ticked
        decreases n,
    {
        if n == 0 || n > self.characters.len() {
            Ticked { simulation: self, events: Seq::empty() }
        } else {
            let before = self.released(inputs, (n - 1) as nat);
            let t = release_actions(
                triggering(
                    before.simulation.abilities,
                    before.simulation.characters[n - 1],
                    before.events,
                ),
                edges_at(inputs, n - 1).just_released,
            );
            Ticked {
                simulation: SimulationView {
                    characters: before.simulation.characters.update(n - 1, t.character),
                    abilities: t.abilities,
                },
                events: t.events,
            }
        }
    }

    /// One simulation step of `nanos` nanoseconds with the given input
    /// edges: time passes, then every character's presses are handled, then
    /// every character's releases.
    pub open spec fn tick(self, nanos: nat, inputs: Seq<EdgesView>) -> Ticked {
        let advanced = self.advanced(nanos);
        let pressed = advanced.pressed(inputs, advanced.characters.len());
        pressed.released(inputs, pressed.characters.len())
    }
}

/// One step of a run: how much time passes and which input edges arrive.
pub struct Step {
    pub nanos: nat,
    pub inputs: Seq<EdgesView>,
}

/// The step of `nanos` nanoseconds with the input edges `inputs`.
pub open spec fn step(nanos: nat, inputs: Seq<EdgesView>) -> Step {
    Step { nanos, inputs }
}

/// Whether `after` and `events` are what a tick of `step` makes of `before`:
/// the world that the tick leaves and the usages that it returns.
pub open spec fn is_tick(
    before: SimulationView,
    step: Step,
    after: SimulationView,
    events: Seq<TriggerAbility>,
) -> bool {
    &&& after == before.tick(step.nanos, step.inputs).simulation
    &&& events == before.tick(step.nanos, step.inputs).events
}

impl Clone for Simulation {
    /// A snapshot of the world: a copy that a later run can start from.
    fn clone(&self) -> (copy: Self)
        ensures
            copy@ == self@,
    {
        let mut characters: Vec<Character> = Vec::new();
        let mut i: usize = 0;
        while i < self.characters.len()
            invariant
                i <= self.characters.len(),
                characters.len() == i,
                forall|j: int| 0 <= j < i ==> (#[trigger] characters@[j])@ == self.characters@[j]@,
            decreases self.characters.len() - i,
        {
            characters.push(self.characters[i].clone());
            i = i + 1;
        }
        let mut abilities: Vec<Ability> = Vec::new();
        let mut k: usize = 0;
        while k < self.abilities.len()
            invariant
                k <= self.abilities.len(),
                abilities.len() == k,
                forall|j: int| 0 <= j < k ==> #[trigger] abilities@[j] == self.abilities@[j],
            decreases self.abilities.len() - k,
        {
            abilities.push(self.abilities[k]);
            k = k + 1;
        }
        assert(character_views(characters@) =~= character_views(self.characters@));
        assert(ability_views(abilities@) =~= ability_views(self.abilities@));
        Simulation { characters, abilities }
    }
}

impl Simulation {
    /// Runs one simulation step of `delta_time`. `inputs` holds the input
    /// edges of the tick, those of the first character first. The step
    /// depends on nothing but the world, `delta_time` and `inputs`.
    /// Returns the usages of abilities that the step produced.
    pub fn tick(&mut self, delta_time: Duration, inputs: &Vec<ActionEdges>) -> (events: Vec<
        TriggerAbility,
    >)
        ensures
            is_tick(
                old(self)@,
                step(duration_nanos(delta_time), edges_views(inputs@)),
                final(self)@,
                events@,
            ),
            final(self)@.wf(),
    {
        let ghost nanos = duration_nanos(delta_time);
        let ghost edges = edges_views(inputs@);
        tick_pools_regen(&mut self.characters, delta_time);
        tick_ability_cds(&mut self.abilities, delta_time);
        let ghost cooled = ability_views(self.abilities@);
        tick_ability_charge(&mut self.abilities, delta_time);
        let ghost advanced = self@;
        assert(advanced == old(self)@.advanced(nanos));
        assert forall|k: int| 0 <= k < advanced.abilities.len() implies (
        #[trigger] advanced.abilities[k]).wf() by {
            assert(cooled[k].state.wf());
            assert(advanced.abilities[k].state == cooled[k].state);
        }
        proof {
            lemma_pressed_keeps_bounds(advanced, edges, advanced.characters.len());
            let pressed = advanced.pressed(edges, advanced.characters.len());
            lemma_released_keeps_bounds(pressed, edges, pressed.characters.len());
        }

        let mut i: usize = 0;
        while i < self.characters.len()
            invariant
                i <= self.characters.len(),
                self.characters.len() == advanced.characters.len(),
                edges == edges_views(inputs@),
                self@ == advanced.pressed(edges, i as nat),
            decreases self.characters.len() - i,
        {
            let ghost before = self@;
            if i < inputs.len() {
                start_charging_abilities(
                    &self.characters[i],
                    &inputs[i].just_pressed,
                    &mut self.abilities,
                );
            } else {
                assert(press_actions(before.abilities, before.characters[i as int], Seq::empty())
                    == before.abilities);
            }
            i = i + 1;
        }
        let ghost pressed = self@;

        let mut events: Vec<TriggerAbility> = Vec::new();
        i = 0;
        while i < self.characters.len()
            invariant
                i <= self.characters.len(),
                self.characters.len() == pressed.characters.len(),
                edges == edges_views(inputs@),
                self@ == pressed.released(edges, i as nat).simulation,
                events@ == pressed.released(edges, i as nat).events,
            decreases self.characters.len() - i,
        {
            let ghost before = self@;
            let ghost recorded = events@;
            if i < inputs.len() {
                trigger_bound_abilities(
                    &mut self.characters[i],
                    &inputs[i].just_released,
                    &mut self.abilities,
                    &mut events,
                );
                assert(self@.characters =~= before.characters.update(
                    i as int,
                    self.characters@[i as int]@,
                ));
            } else {
                assert(release_actions(
                    triggering(before.abilities, before.characters[i as int], recorded),
                    Seq::empty(),
                ) == triggering(before.abilities, before.characters[i as int], recorded));
                assert(self@.characters =~= before.characters.update(
                    i as int,
                    before.characters[i as int],
                ));
            }
            i = i + 1;
        }
        events
    }
}

/// Whether `worlds` and `events` are a run of `steps` from `start`: the
/// worlds begin with `start`, and each step leads by one tick from one world
/// to the next, producing that step's usages.
pub open spec fn is_run(
    start: SimulationView,
    steps: Seq<Step>,
    worlds: Seq<SimulationView>,
    events: Seq<Seq<TriggerAbility>>,
) -> bool {
    &&& worlds.len() == steps.len() + 1
    &&& events.len() == steps.len()
    &&& worlds[0] == start
    &&& forall|i: int|
        0 <= i < steps.len() ==> is_tick(worlds[i], #[trigger] steps[i], worlds[i + 1], events[i])
}

/// A tick is a function of the world, the time and the input edges: two
/// ticks from the same world with the same step leave the same world and
/// produce the same usages.
pub proof fn lemma_tick_is_deterministic(
    before: SimulationView,
    step: Step,
    after_a: SimulationView,
    events_a: Seq<TriggerAbility>,
    after_b: SimulationView,
    events_b: Seq<TriggerAbility>,
)
    requires
        is_tick(before, step, after_a, events_a),
        is_tick(before, step, after_b, events_b),
    ensures
        after_a == after_b,
        events_a == events_b,
{
}

/// Two runs from the same world with the same steps pass through the same
/// worlds and produce the same usages at every step. This is what lets a
/// run be thrown away and simulated again from an earlier world.
pub proof fn lemma_run_is_deterministic(
    start: SimulationView,
    steps: Seq<Step>,
    worlds_a: Seq<SimulationView>,
    events_a: Seq<Seq<TriggerAbility>>,
    worlds_b: Seq<SimulationView>,
    events_b: Seq<Seq<TriggerAbility>>,
)
    requires
        is_run(start, steps, worlds_a, events_a),
        is_run(start, steps, worlds_b, events_b),
    ensures
        worlds_a == worlds_b,
        events_a == events_b,
{
    assert forall|i: int| 0 <= i <= steps.len() implies worlds_a[i] == worlds_b[i] by {
        lemma_runs_agree(start, steps, worlds_a, events_a, worlds_b, events_b, i);
    }
    assert(worlds_a =~= worlds_b);
    assert forall|i: int| 0 <= i < steps.len() implies events_a[i] == events_b[i] by {
        lemma_runs_agree(start, steps, worlds_a, events_a, worlds_b, events_b, i);
        assert(is_tick(worlds_a[i], steps[i], worlds_a[i + 1], events_a[i]));
        assert(is_tick(worlds_b[i], steps[i], worlds_b[i + 1], events_b[i]));
    }
    assert(events_a =~= events_b);
}

/// Two runs from the same world with the same steps are in the same world
/// after `i` steps.
proof fn lemma_runs_agree(
    start: SimulationView,
    steps: Seq<Step>,
    worlds_a: Seq<SimulationView>,
    events_a: Seq<Seq<TriggerAbility>>,
    worlds_b: Seq<SimulationView>,
    events_b: Seq<Seq<TriggerAbility>>,
    i: int,
)
    requires
        is_run(start, steps, worlds_a, events_a),
        is_run(start, steps, worlds_b, events_b),
        0 <= i <= steps.len(),
    ensures
        worlds_a[i] == worlds_b[i],
    decreases i,
{
    if i > 0 {
        lemma_runs_agree(start, steps, worlds_a, events_a, worlds_b, events_b, i - 1);
        assert(is_tick(worlds_a[i - 1], steps[i - 1], worlds_a[i], events_a[i - 1]));
        assert(is_tick(worlds_b[i - 1], steps[i - 1], worlds_b[i], events_b[i - 1]));
    }
}

/// Every character's pools are within their bounds.
pub open spec fn characters_wf(characters: Seq<CharacterView>) -> bool {
    forall|i: int| 0 <= i < characters.len() ==> (#[trigger] characters[i]).wf()
}

/// Whether `after` holds the same characters as `before`: as many, each
/// under its identifier, with its bindings and the maxima of its pools.
pub open spec fn same_characters(before: Seq<CharacterView>, after: Seq<CharacterView>) -> bool {
    &&& after.len() == before.len()
    &&& forall|i: int|
        0 <= i < before.len() ==> {
            &&& (#[trigger] after[i]).id == before[i].id
            &&& after[i].bindings == before[i].bindings
            &&& after[i].life.max == before[i].life.max
            &&& after[i].mana.max == before[i].mana.max
        }
}

impl SimulationView {
    /// Every pool, cooldown and charge of the world is within its bounds.
    pub open spec fn wf(self) -> bool {
        &&& characters_wf(self.characters)
        &&& abilities_wf(self.abilities)
    }
}

proof fn lemma_pressed_keeps_bounds(world: SimulationView, inputs: Seq<EdgesView>, n: nat)
    requires
        world.wf(),
    ensures
        world.pressed(inputs, n).wf(),
        world.pressed(inputs, n).characters == world.characters,
        ability_ids(world.pressed(inputs, n).abilities) == ability_ids(world.abilities),
    decreases n,
{
    if n != 0 && n <= world.characters.len() {
        let before = world.pressed(inputs, (n - 1) as nat);
        lemma_pressed_keeps_bounds(world, inputs, (n - 1) as nat);
        lemma_press_actions_keep_bounds(
            before.abilities,
            before.characters[n - 1],
            edges_at(inputs, n - 1).just_pressed,
        );
    }
}

proof fn lemma_released_keeps_bounds(world: SimulationView, inputs: Seq<EdgesView>, n: nat)
    requires
        world.wf(),
    ensures
        world.released(inputs, n).simulation.wf(),
        same_characters(world.characters, world.released(inputs, n).simulation.characters),
        ability_ids(world.released(inputs, n).simulation.abilities) == ability_ids(world.abilities),
    decreases n,
{
    if n != 0 && n <= world.characters.len() {
        let before = world.released(inputs, (n - 1) as nat);
        lemma_released_keeps_bounds(world, inputs, (n - 1) as nat);
        lemma_release_actions_keep_bounds(
            triggering(
                before.simulation.abilities,
                before.simulation.characters[n - 1],
                before.events,
            ),
            edges_at(inputs, n - 1).just_released,
        );
    }
}

/// A tick keeps the world within its bounds and keeps what it is made of.
/// After it, every pool's level lies between the minimum and the pool's
/// maximum, every cooldown's elapsed time within its duration, and every
/// charge within what a duration can hold. The same characters and the same
/// abilities are there, in the same order, with the same bindings.
pub proof fn lemma_tick_keeps_bounds(world: SimulationView, nanos: nat, inputs: Seq<EdgesView>)
    requires
        world.wf(),
    ensures
        world.tick(nanos, inputs).simulation.wf(),
        same_characters(world.characters, world.tick(nanos, inputs).simulation.characters),
        ability_ids(world.tick(nanos, inputs).simulation.abilities) == ability_ids(world.abilities),
{
    let advanced = world.advanced(nanos);
    assert(advanced.wf());
    assert(ability_ids(advanced.abilities) =~= ability_ids(world.abilities));
    lemma_pressed_keeps_bounds(advanced, inputs, advanced.characters.len());
    let pressed = advanced.pressed(inputs, advanced.characters.len());
    lemma_released_keeps_bounds(pressed, inputs, pressed.characters.len());
}

} // verus!
