//! The trigger protocol: what the presses and releases of one character do
//! to the abilities in play, to the character's pools, and which usages
//! they produce.

use vstd::prelude::*;
use crate::ability_map::{resolve, AbilityMap, Bindings};
use crate::activation::{Ability, ActiveAbilityView};
use crate::pool::PoolView;
use crate::pools::life::LifePool;
use crate::pools::mana::ManaPool;

verus! {

/// An ability was used: by whom, and which one.
#[derive(Clone, Copy, Debug, PartialEq, Eq, Structural)]
pub struct TriggerAbility {
    /// Source entity that triggered the ability
    pub source: u64,
    /// Entity which describes the ability being triggered
    pub ability: u64,
}

/// A character that can use abilities: its two pools and what its actions
/// are bound to.
#[derive(Debug, PartialEq, Eq)]
pub struct Character {
    pub id: u64,
    pub life: LifePool,
    pub mana: ManaPool,
    pub abilities: AbilityMap,
}

/// What a character is.
pub struct CharacterView {
    pub id: u64,
    pub life: PoolView,
    pub mana: PoolView,
    pub bindings: Bindings,
}

impl View for Character {
    type V = CharacterView;

    open spec fn view(&self) -> CharacterView {
        CharacterView {
            id: self.id,
            life: self.life@,
            mana: self.mana@,
            bindings: self.abilities@,
        }
    }
}

impl Clone for Character {
    /// A copy of the character as it stands.
    fn clone(&self) -> (copy: Self)
        ensures
            copy@ == self@,
    {
        Character {
            id: self.id,
            life: self.life,
            mana: self.mana,
            abilities: self.abilities.clone(),
        }
    }
}

impl CharacterView {
    pub open spec fn wf(self) -> bool {
        &&& self.life.wf()
        &&& self.mana.wf()
    }

    /// The character after `nanos` nanoseconds of regeneration of both pools.
    pub open spec fn regenerated(self, nanos: nat) -> CharacterView {
        CharacterView { life: self.life.regenerate(nanos), mana: self.mana.regenerate(nanos), ..self }
    }
}

/// The input edges of one character in one tick: the actions that were
/// pressed and those that were released since the tick before, each in the
/// order in which they are to be handled.
#[derive(Debug, Default, PartialEq, Eq)]
pub struct ActionEdges {
    pub just_pressed: Vec<u64>,
    pub just_released: Vec<u64>,
}

/// What the input edges of one character are.
pub struct EdgesView {
    pub just_pressed: Seq<u64>,
    pub just_released: Seq<u64>,
}

impl Clone for ActionEdges {
    fn clone(&self) -> (copy: Self)
        ensures
            copy@ == self@,
    {
        ActionEdges {
            just_pressed: self.just_pressed.clone(),
            just_released: self.just_released.clone(),
        }
    }
}

impl View for ActionEdges {
    type V = EdgesView;

    open spec fn view(&self) -> EdgesView {
        EdgesView { just_pressed: self.just_pressed@, just_released: self.just_released@ }
    }
}

/// What each of the abilities is.
pub open spec fn ability_views(abilities: Seq<Ability>) -> Seq<ActiveAbilityView> {
    Seq::new(abilities.len(), |i: int| abilities[i]@)
}

/// The identifiers of the abilities, in their order.
pub open spec fn ability_ids(abilities: Seq<ActiveAbilityView>) -> Seq<u64> {
    Seq::new(abilities.len(), |i: int| abilities[i].id)
}

/// Where the ability `id` stands: the first place that holds an ability of
/// that identifier, if there is one.
pub open spec fn find(abilities: Seq<ActiveAbilityView>, id: u64) -> Option<int> {
    ability_ids(abilities).index_of_first(id)
}

/// Every ability is within its bounds.
pub open spec fn abilities_wf(abilities: Seq<ActiveAbilityView>) -> bool {
    forall|k: int| 0 <= k < abilities.len() ==> (#[trigger] abilities[k]).wf()
}

/// Where the ability `id` stands among `abilities`.
pub fn find_ability(abilities: &Vec<Ability>, id: u64) -> (found: Option<usize>)
    ensures
        found is Some ==> found->0 < abilities.len(),
        found is Some ==> find(ability_views(abilities@), id) == Some(found->0 as int),
        found is None ==> find(ability_views(abilities@), id) is None,
{
    let ghost ids = ability_ids(ability_views(abilities@));
    proof {
        ids.index_of_first_ensures(id);
    }
    let mut k: usize = 0;
    while k < abilities.len()
        invariant
            k <= abilities.len(),
            ids == ability_ids(ability_views(abilities@)),
            forall|j: int| 0 <= j < k ==> ids[j] != id,
        decreases abilities.len() - k,
    {
        if abilities[k].id == id {
            proof {
                assert(ids[k as int] == id);
                assert(ids.contains(id));
                ids.index_of_first_ensures(id);
            }
            return Some(k);
        }
        k = k + 1;
    }
    None
}

/// The abilities after `character` pressed `action`: the ability bound to
/// the action, if there is one in play, is pressed against the character's
/// pools.
pub open spec fn press_action(
    abilities: Seq<ActiveAbilityView>,
    character: CharacterView,
    action: u64,
) -> Seq<ActiveAbilityView> {
    match resolve(character.bindings, action) {
        Ok(id) => match find(abilities, id) {
            Some(k) => abilities.update(k, abilities[k].pressed(character.mana, character.life)),
            None => abilities,
        },
        Err(_) => abilities,
    }
}

/// The abilities after `character` pressed `actions`, one after the other.
pub open spec fn press_actions(
    abilities: Seq<ActiveAbilityView>,
    character: CharacterView,
    actions: Seq<u64>,
) -> Seq<ActiveAbilityView>
    decreases actions.len(),
{
    if actions.len() == 0 {
        abilities
    } else {
        press_action(
            press_actions(abilities, character, actions.drop_last()),
            character,
            actions.last(),
        )
    }
}

/// Where the releases of one character stand: the abilities, the character
/// and the usages recorded so far.
pub struct Triggering {
    pub abilities: Seq<ActiveAbilityView>,
    pub character: CharacterView,
    pub events: Seq<TriggerAbility>,
}

/// The releases of `character` as they stand with these abilities and these
/// usages recorded.
pub open spec fn triggering(
    abilities: Seq<ActiveAbilityView>,
    character: CharacterView,
    events: Seq<TriggerAbility>,
) -> Triggering {
    Triggering { abilities, character, events }
}

/// What the release of `action` leads to: the ability bound to the action,
/// if there is one in play, is released against the character's pools, and
/// if that used the ability, one usage by this character is recorded.
pub open spec fn release_action(t: Triggering, action: u64) -> Triggering {
    match resolve(t.character.bindings, action) {
        Ok(id) => match find(t.abilities, id) {
            Some(k) => {
                let released = t.abilities[k].released(t.character.mana, t.character.life);
                Triggering {
                    abilities: t.abilities.update(k, released.ability),
                    character: CharacterView {
                        mana: released.mana,
                        life: released.life,
                        ..t.character
                    },
                    events: if released.outcome is Ok {
                        t.events.push(TriggerAbility { source: t.character.id, ability: id })
                    } else {
                        t.events
                    },
                }
            },
            None => t,
        },
        Err(_) => t,
    }
}

/// What the release of `actions`, one after the other, leads to.
pub open spec fn release_actions(t: Triggering, actions: Seq<u64>) -> Triggering
    decreases actions.len(),
{
    if actions.len() == 0 {
        t
    } else {
        release_action(release_actions(t, actions.drop_last()), actions.last())
    }
}

/// Handles the actions that `character` has just pressed, in their order:
/// each one that is bound to an ability in play presses that ability, which
/// starts charging if it is ready.
pub fn start_charging_abilities(
    character: &Character,
    just_pressed: &Vec<u64>,
    abilities: &mut Vec<Ability>,
)
    ensures
        ability_views(final(abilities)@) == press_actions(
            ability_views(old(abilities)@),
            character@,
            just_pressed@,
        ),
        abilities_wf(ability_views(old(abilities)@)) ==> abilities_wf(
            ability_views(final(abilities)@),
        ),
{
    let ghost before = ability_views(abilities@);
    proof {
        if abilities_wf(before) {
            lemma_press_actions_keep_bounds(before, character@, just_pressed@);
        }
    }
    let mut j: usize = 0;
    assert(just_pressed@.take(0) =~= Seq::<u64>::empty());
    while j < just_pressed.len()
        invariant
            j <= just_pressed.len(),
            ability_views(abilities@) == press_actions(before, character@, just_pressed@.take(j as int)),
        decreases just_pressed.len() - j,
    {
        let action: u64 = just_pressed[j];
        let ghost now = ability_views(abilities@);
        proof {
            let prefix = just_pressed@.take(j + 1);
            assert(prefix.drop_last() =~= just_pressed@.take(j as int));
            assert(prefix.last() == action);
        }
        if let Ok(id) = character.abilities.mapped(action) {
            if let Some(k) = find_ability(abilities, id) {
                let _ = abilities[k].press(&character.mana, &character.life);
                assert(ability_views(abilities@) =~= now.update(
                    k as int,
                    now[k as int].pressed(character@.mana, character@.life),
                ));
            }
        }
        j = j + 1;
    }
    assert(just_pressed@.take(j as int) =~= just_pressed@);
}

/// Handles the actions that `character` has just released, in their order:
/// each one that is bound to an ability in play releases that ability. An
/// ability that is ready is used, which costs the character what the
/// ability declares and adds one usage to `triggers`. One that is not
/// ready changes nothing but that it is no longer held.
pub fn trigger_bound_abilities(
    character: &mut Character,
    just_released: &Vec<u64>,
    abilities: &mut Vec<Ability>,
    triggers: &mut Vec<TriggerAbility>,
)
    ensures
        ability_views(final(abilities)@) == release_actions(
            triggering(ability_views(old(abilities)@), old(character)@, old(triggers)@),
            just_released@,
        ).abilities,
        final(character)@ == release_actions(
            triggering(ability_views(old(abilities)@), old(character)@, old(triggers)@),
            just_released@,
        ).character,
        final(triggers)@ == release_actions(
            triggering(ability_views(old(abilities)@), old(character)@, old(triggers)@),
            just_released@,
        ).events,
        final(character)@.wf(),
        abilities_wf(ability_views(old(abilities)@)) ==> abilities_wf(
            ability_views(final(abilities)@),
        ),
{
    let ghost start = triggering(ability_views(abilities@), character@, triggers@);
    proof {
        use_type_invariant(&character.life);
        use_type_invariant(&character.mana);
        if abilities_wf(start.abilities) {
            lemma_release_actions_keep_bounds(start, just_released@);
        }
    }
    let mut j: usize = 0;
    assert(just_released@.take(0) =~= Seq::<u64>::empty());
    while j < just_released.len()
        invariant
            j <= just_released.len(),
            triggering(ability_views(abilities@), character@, triggers@) == release_actions(
                start,
                just_released@.take(j as int),
            ),
            character@.wf(),
        decreases just_released.len() - j,
    {
        let action: u64 = just_released[j];
        let ghost now = triggering(ability_views(abilities@), character@, triggers@);
        proof {
            let prefix = just_released@.take(j + 1);
            assert(prefix.drop_last() =~= just_released@.take(j as int));
            assert(prefix.last() == action);
        }
        if let Ok(id) = character.abilities.mapped(action) {
            if let Some(k) = find_ability(abilities, id) {
                let outcome = abilities[k].release(&mut character.mana, &mut character.life);
                if outcome.is_ok() {
                    triggers.push(TriggerAbility { source: character.id, ability: id });
                }
                assert(ability_views(abilities@) =~= now.abilities.update(
                    k as int,
                    now.abilities[k as int].released(now.character.mana, now.character.life).ability,
                ));
            }
        }
        j = j + 1;
    }
    assert(just_released@.take(j as int) =~= just_released@);
}

/// Presses keep every ability within its bounds and under its identifier.
pub proof fn lemma_press_actions_keep_bounds(
    abilities: Seq<ActiveAbilityView>,
    character: CharacterView,
    actions: Seq<u64>,
)
    requires
        abilities_wf(abilities),
    ensures
        abilities_wf(press_actions(abilities, character, actions)),
        ability_ids(press_actions(abilities, character, actions)) == ability_ids(abilities),
    decreases actions.len(),
{
    if actions.len() > 0 {
        let before = press_actions(abilities, character, actions.drop_last());
        lemma_press_actions_keep_bounds(abilities, character, actions.drop_last());
        let after = press_action(before, character, actions.last());
        if let Ok(id) = resolve(character.bindings, actions.last()) {
            ability_ids(before).index_of_first_ensures(id);
        }
        assert(ability_ids(after) =~= ability_ids(before));
    }
}

/// Releases keep every ability and the character within their bounds, keep
/// the identifiers, the bindings and the maxima of the pools, and never take
/// a recorded usage back.
pub proof fn lemma_release_actions_keep_bounds(t: Triggering, actions: Seq<u64>)
    requires
        abilities_wf(t.abilities),
        t.character.wf(),
    ensures
        abilities_wf(release_actions(t, actions).abilities),
        ability_ids(release_actions(t, actions).abilities) == ability_ids(t.abilities),
        release_actions(t, actions).character.wf(),
        release_actions(t, actions).character.id == t.character.id,
        release_actions(t, actions).character.bindings == t.character.bindings,
        release_actions(t, actions).character.life.max == t.character.life.max,
        release_actions(t, actions).character.mana.max == t.character.mana.max,
        release_actions(t, actions).events.len() >= t.events.len(),
    decreases actions.len(),
{
    if actions.len() > 0 {
        let before = release_actions(t, actions.drop_last());
        lemma_release_actions_keep_bounds(t, actions.drop_last());
        let after = release_action(before, actions.last());
        if let Ok(id) = resolve(before.character.bindings, actions.last()) {
            ability_ids(before.abilities).index_of_first_ensures(id);
        }
        assert(ability_ids(after.abilities) =~= ability_ids(before.abilities));
    }
}

} // verus!
