//! Which ability each of a character's actions is bound to.

use bevy::utils::HashMap;
use vstd::prelude::*;
use crate::CannotUseAbility;

verus! {

/// What an ability map holds: for each bound action the ability behind it.
pub type Bindings = Map<u64, u64>;

/// The bindings of one controlled character, from action identifiers to
/// ability identifiers. Binding an action again replaces what it was bound
/// to.
///
/// Trusted: the bindings are kept in bevy's `utils::HashMap`, hashbrown's
/// hash map under bevy's hasher, which Verus cannot look into. What the map
/// holds goes by the name [`bindings`], and the private functions below that
/// touch the map say what its methods do to it.
#[verifier::external_body]
#[derive(Debug, PartialEq, Eq)]
pub struct AbilityMap {
    bindings: HashMap<u64, u64>,
}

/// The key-value pairs that the map holds.
pub uninterp spec fn bindings(map: AbilityMap) -> Bindings;

impl View for AbilityMap {
    type V = Bindings;

    open spec fn view(&self) -> Bindings {
        bindings(*self)
    }
}

/// Trusted: `HashMap::new` makes a map that holds nothing.
#[verifier::external_body]
fn empty_map() -> (map: AbilityMap)
    ensures
        bindings(map) == Bindings::empty(),
{
    AbilityMap { bindings: HashMap::new() }
}

/// Trusted: `HashMap::insert` binds the key to the value, replacing the
/// value of a key that was present, and leaves every other pair alone.
#[verifier::external_body]
fn insert_pair(map: &mut AbilityMap, action: u64, ability: u64)
    ensures
        bindings(*final(map)) == bindings(*old(map)).insert(action, ability),
{
    map.bindings.insert(action, ability);
}

/// Trusted: `HashMap::get` finds the value of a key that is present, and
/// nothing for a key that is not.
#[verifier::external_body]
fn get_value(map: &AbilityMap, action: u64) -> (found: Option<u64>)
    ensures
        found == bindings(*map).get(action),
{
    map.bindings.get(&action).copied()
}

/// Trusted: `HashMap::keys` visits every key of the map once, in an order of
/// its own.
#[verifier::external_body]
fn all_keys(map: &AbilityMap) -> (keys: Vec<u64>)
    ensures
        keys@.no_duplicates(),
        keys@.to_set() == bindings(*map).dom(),
{
    map.bindings.keys().copied().collect()
}

/// Trusted: `HashMap::clone` makes a map that holds the same pairs.
#[verifier::external_body]
fn clone_map(map: &AbilityMap) -> (copy: AbilityMap)
    ensures
        bindings(copy) == bindings(*map),
{
    AbilityMap { bindings: map.bindings.clone() }
}

impl Clone for AbilityMap {
    fn clone(&self) -> (copy: Self)
        ensures
            copy@ == self@,
    {
        clone_map(self)
    }
}

/// What resolving `action` against `bindings` gives: the bound ability, or
/// `AbilityNotBound`.
pub open spec fn resolve(bindings: Bindings, action: u64) -> Result<u64, CannotUseAbility> {
    if bindings.contains_key(action) {
        Ok(bindings[action])
    } else {
        Err(CannotUseAbility::AbilityNotBound)
    }
}

/// Whether `after` is `before` with every ability identifier rewritten by
/// `translate`: the same actions are bound, each to a translation of what it
/// was bound to.
pub open spec fn remapped<F: Fn(u64) -> u64>(before: Bindings, after: Bindings, translate: F) -> bool {
    &&& after.dom() == before.dom()
    &&& forall|action: u64| #[trigger]
        before.contains_key(action) ==> translate.ensures((before[action],), after[action])
}

impl AbilityMap {
    /// A map without bindings.
    pub fn new() -> (map: Self)
        ensures
            map@ == Bindings::empty(),
    {
        empty_map()
    }

    /// Binds `action` to the ability `entity`. The last binding of an action
    /// is the one that counts.
    pub fn add_binding(&mut self, action: u64, entity: u64)
        ensures
            final(self)@ == old(self)@.insert(action, entity),
    {
        insert_pair(self, action, entity);
    }

    /// The ability that `action` is bound to, or `AbilityNotBound`.
    pub fn mapped(&self, action: u64) -> (r: Result<u64, CannotUseAbility>)
        ensures
            r == resolve(self@, action),
    {
        match get_value(self, action) {
            Some(ability) => Ok(ability),
            None => Err(CannotUseAbility::AbilityNotBound),
        }
    }

    /// The actions that are bound, each once, in no particular order.
    pub fn actions(&self) -> (actions: Vec<u64>)
        ensures
            actions@.no_duplicates(),
            actions@.to_set() == self@.dom(),
    {
        all_keys(self)
    }

    /// Rewrites every bound ability identifier through `entity_mapper`, for
    /// when the abilities have been renumbered. Which actions are bound does
    /// not change.
    pub fn map_entities<F: Fn(u64) -> u64>(&mut self, entity_mapper: F)
        requires
            forall|action: u64| #[trigger]
                old(self)@.contains_key(action) ==> entity_mapper.requires((old(self)@[action],)),
        ensures
            remapped(old(self)@, final(self)@, entity_mapper),
    {
        let actions: Vec<u64> = all_keys(self);
        let mut i: usize = 0;
        while i < actions.len()
            invariant
                i <= actions.len(),
                actions@.no_duplicates(),
                actions@.to_set() == old(self)@.dom(),
                self@.dom() == old(self)@.dom(),
                forall|action: u64| #[trigger]
                    old(self)@.contains_key(action) ==> entity_mapper.requires(
                        (old(self)@[action],),
                    ),
                forall|j: int|
                    0 <= j < i ==> entity_mapper.ensures(
                        (old(self)@[actions@[j]],),
                        #[trigger] self@[actions@[j]],
                    ),
                forall|j: int|
                    i <= j < actions.len() ==> #[trigger] self@[actions@[j]] == old(
                        self,
                    )@[actions@[j]],
            decreases actions.len() - i,
        {
            let action: u64 = actions[i];
            assert(actions@.to_set().contains(actions@[i as int]));
            match get_value(self, action) {
                Some(ability) => {
                    let mapped: u64 = entity_mapper(ability);
                    insert_pair(self, action, mapped);
                    assert(self@.dom() =~= old(self)@.dom());
                },
                None => {},
            }
            i = i + 1;
        }
        assert forall|action: u64| #[trigger] old(self)@.contains_key(action) implies
            entity_mapper.ensures((old(self)@[action],), self@[action]) by {
            assert(actions@.to_set().contains(action));
            let j = choose|j: int| 0 <= j < actions@.len() && actions@[j] == action;
            assert(entity_mapper.ensures((old(self)@[actions@[j]],), self@[actions@[j]]));
        }
    }
}

/// Binding then resolving gives back what was bound, a later binding of the
/// same action wins, an action that is not bound does not resolve, and
/// binding one action leaves the others as they were.
pub proof fn lemma_binding_resolves(bindings: Bindings, action: u64, first: u64, second: u64, other: u64)
    ensures
        resolve(bindings.insert(action, first), action) == Ok::<u64, CannotUseAbility>(first),
        resolve(bindings.insert(action, first).insert(action, second), action)
            == Ok::<u64, CannotUseAbility>(second),
        !bindings.contains_key(action) ==> resolve(bindings, action)
            == Err::<u64, CannotUseAbility>(CannotUseAbility::AbilityNotBound),
        resolve(Bindings::empty(), action) == Err::<u64, CannotUseAbility>(
            CannotUseAbility::AbilityNotBound,
        ),
        other != action ==> resolve(bindings.insert(action, first), other) == resolve(
            bindings,
            other,
        ),
{
}

} // verus!
