use overheat::ability::AbilityState;
use overheat::cooldown::Cooldown;
use overheat::pool::{AbilityCost, Pool};
use overheat::pools::life::{Life, LifePool};
use overheat::pools::mana::{Mana, ManaPool};
use overheat::CannotUseAbility;
use std::time::Duration;

fn pools(mana: i64, life: i64) -> (ManaPool, LifePool) {
    (
        ManaPool::new(Mana(mana), Mana(100), Mana(5)),
        LifePool::new(Life(life), Life(100), Life(5)),
    )
}

#[test]
fn new_ability_declares_both_costs_and_is_ready() {
    let ability = AbilityState::new(Mana(10), Life(0), Duration::from_secs(2));
    assert_eq!(ability.mp_cost, Some(AbilityCost::<ManaPool>(Mana(10))));
    assert_eq!(ability.lp_cost, Some(AbilityCost::<LifePool>(Life(0))));
    assert_eq!(ability.cooldown, Cooldown::new(Duration::from_secs(2)));
    let (mana, life) = pools(100, 100);
    assert_eq!(ability.ready(&mana, &life), Ok(()));
}

#[test]
fn try_new_refuses_a_zero_cooldown() {
    assert_eq!(AbilityState::try_new(Mana(1), Life(1), Duration::ZERO), None);
    assert_eq!(
        AbilityState::try_new(Mana(1), Life(2), Duration::from_secs(3)),
        Some(AbilityState::new(Mana(1), Life(2), Duration::from_secs(3)))
    );
}

#[test]
fn trigger_pays_every_cost_and_starts_the_cooldown() {
    let mut ability = AbilityState::new(Mana(10), Life(4), Duration::from_secs(2));
    let (mut mana, mut life) = pools(50, 60);
    assert_eq!(ability.trigger(&mut mana, &mut life), Ok(()));
    assert_eq!(mana.current(), Mana(40));
    assert_eq!(life.current(), Life(56));
    assert_eq!(ability.cooldown.elapsed(), Duration::ZERO);
    assert_eq!(ability.cooldown.ready(), Err(CannotUseAbility::OnCooldown));
}

#[test]
fn trigger_on_cooldown_changes_nothing() {
    let mut ability = AbilityState::new(Mana(10), Life(4), Duration::from_secs(2));
    let (mut mana, mut life) = pools(50, 60);
    ability.trigger(&mut mana, &mut life).unwrap();
    ability.cooldown.tick(Duration::from_secs(1));
    let (ability_before, mana_before, life_before) = (ability, mana, life);

    assert_eq!(ability.trigger(&mut mana, &mut life), Err(CannotUseAbility::OnCooldown));
    assert_eq!(ability, ability_before);
    assert_eq!(mana, mana_before);
    assert_eq!(life, life_before);
}

#[test]
fn trigger_with_one_unaffordable_cost_deducts_nothing() {
    let mut ability = AbilityState::new(Mana(10), Life(80), Duration::from_secs(2));
    let (mut mana, mut life) = pools(50, 60);
    let (ability_before, mana_before, life_before) = (ability, mana, life);

    assert_eq!(ability.trigger(&mut mana, &mut life), Err(CannotUseAbility::ResourceMissing));
    assert_eq!(mana, mana_before);
    assert_eq!(life, life_before);
    assert_eq!(ability, ability_before);
    assert_eq!(ability.cooldown.ready(), Ok(()));

    let mut other = AbilityState::new(Mana(51), Life(1), Duration::from_secs(2));
    assert_eq!(other.trigger(&mut mana, &mut life), Err(CannotUseAbility::ResourceMissing));
    assert_eq!(mana, mana_before);
    assert_eq!(life, life_before);
    assert_eq!(other.cooldown.ready(), Ok(()));
}

#[test]
fn cooldown_takes_precedence_over_missing_resources() {
    let mut ability = AbilityState::new(Mana(10), Life(0), Duration::from_secs(2));
    let (mut mana, mut life) = pools(15, 60);
    ability.trigger(&mut mana, &mut life).unwrap();
    assert_eq!(mana.current(), Mana(5));
    assert_eq!(ability.ready(&mana, &life), Err(CannotUseAbility::OnCooldown));
    ability.cooldown.refresh();
    assert_eq!(ability.ready(&mana, &life), Err(CannotUseAbility::ResourceMissing));
}

#[test]
fn ready_asks_without_changing_anything() {
    let ability = AbilityState::new(Mana(10), Life(10), Duration::from_secs(2));
    let (mana, life) = pools(10, 10);
    assert_eq!(ability.ready(&mana, &life), Ok(()));
    assert_eq!(mana.current(), Mana(10));
    assert_eq!(life.current(), Life(10));
    let (mana, life) = pools(9, 10);
    assert_eq!(ability.ready(&mana, &life), Err(CannotUseAbility::ResourceMissing));
    let (mana, life) = pools(10, 9);
    assert_eq!(ability.ready(&mana, &life), Err(CannotUseAbility::ResourceMissing));
}

#[test]
fn costs_that_are_not_declared_are_not_asked_for() {
    let mut ability = AbilityState {
        cooldown: Cooldown::new(Duration::from_secs(1)),
        mp_cost: None,
        lp_cost: Some(AbilityCost::<LifePool>(Life(5))),
    };
    let (mut mana, mut life) = pools(0, 5);
    assert_eq!(ability.ready(&mana, &life), Ok(()));
    assert_eq!(ability.trigger(&mut mana, &mut life), Ok(()));
    assert_eq!(mana.current(), Mana(0));
    assert_eq!(life.current(), Life(0));

    let mut free = AbilityState {
        cooldown: Cooldown::new(Duration::from_secs(1)),
        mp_cost: None,
        lp_cost: None,
    };
    assert_eq!(free.trigger(&mut mana, &mut life), Ok(()));
    assert_eq!(free.trigger(&mut mana, &mut life), Err(CannotUseAbility::OnCooldown));
}

#[test]
fn ability_can_be_used_again_after_its_cooldown() {
    let mut ability = AbilityState::new(Mana(10), Life(0), Duration::from_secs(2));
    let (mut mana, mut life) = pools(100, 100);
    assert_eq!(ability.trigger(&mut mana, &mut life), Ok(()));
    ability.cooldown.tick(Duration::from_millis(1999));
    assert_eq!(ability.trigger(&mut mana, &mut life), Err(CannotUseAbility::OnCooldown));
    ability.cooldown.tick(Duration::from_millis(1));
    assert_eq!(ability.trigger(&mut mana, &mut life), Ok(()));
    assert_eq!(mana.current(), Mana(80));
}
