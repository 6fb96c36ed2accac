use overheat::ability::AbilityState;
use overheat::ability_map::AbilityMap;
use overheat::activation::{Ability, Activation};
use overheat::cooldown::Cooldown;
use overheat::pool::{AbilityCost, Pool};
use overheat::pools::life::{Life, LifePool};
use overheat::pools::mana::{Mana, ManaPool};
use overheat::simulation::{tick_ability_cds, tick_ability_charge, tick_pools_regen, Simulation};
use overheat::trigger::{
    find_ability, start_charging_abilities, trigger_bound_abilities, ActionEdges, Character,
    TriggerAbility,
};
use std::time::Duration;

const DODGE: u64 = 1;
const ATTACK: u64 = 2;

const TICK: Duration = Duration::from_nanos(15_625_000);

fn character(id: u64, mana: i64, bindings: &[(u64, u64)]) -> Character {
    let mut abilities = AbilityMap::new();
    for (action, ability) in bindings {
        abilities.add_binding(*action, *ability);
    }
    Character {
        id,
        life: LifePool::new(Life(100_000), Life(100_000), Life(5_000)),
        mana: ManaPool::new(Mana(mana), Mana(100_000), Mana(5_000)),
        abilities,
    }
}

fn ability(id: u64, mana_cost: i64, cooldown: Duration) -> Ability {
    Ability::new(id, AbilityState::new(Mana(mana_cost), Life(0), cooldown))
}

fn pressed(actions: &[u64]) -> ActionEdges {
    ActionEdges { just_pressed: actions.to_vec(), just_released: Vec::new() }
}

fn released(actions: &[u64]) -> ActionEdges {
    ActionEdges { just_pressed: Vec::new(), just_released: actions.to_vec() }
}

fn one_player() -> Simulation {
    Simulation {
        characters: vec![character(10, 50_000, &[(DODGE, 700)])],
        abilities: vec![ability(700, 10_000, Duration::from_secs(2))],
    }
}

#[test]
fn find_ability_finds_the_first_of_its_identifier() {
    let abilities = vec![
        ability(5, 1, TICK),
        ability(6, 2, TICK),
        ability(5, 3, TICK),
        ability(7, 4, TICK),
    ];
    assert_eq!(find_ability(&abilities, 5), Some(0));
    assert_eq!(find_ability(&abilities, 6), Some(1));
    assert_eq!(find_ability(&abilities, 7), Some(3));
    assert_eq!(find_ability(&abilities, 8), None);
    assert_eq!(find_ability(&Vec::new(), 5), None);
}

#[test]
fn tick_pools_regen_regenerates_every_pool() {
    let mut characters = vec![character(1, 0, &[]), character(2, 99_999, &[])];
    characters[1].life.expend(Life(60_000)).unwrap();
    tick_pools_regen(&mut characters, Duration::from_secs(2));
    assert_eq!(characters[0].mana.current(), Mana(10_000));
    assert_eq!(characters[0].life.current(), Life(100_000));
    assert_eq!(characters[1].mana.current(), Mana(100_000));
    assert_eq!(characters[1].life.current(), Life(50_000));
    assert_eq!(characters[0].id, 1);
    assert_eq!(characters[1].id, 2);
}

#[test]
fn tick_ability_cds_recharges_every_cooldown() {
    let mut abilities = vec![ability(1, 0, Duration::from_secs(2)), ability(2, 0, Duration::from_secs(5))];
    abilities[0].state.cooldown.trigger().unwrap();
    abilities[1].state.cooldown.trigger().unwrap();
    tick_ability_cds(&mut abilities, Duration::from_secs(3));
    assert_eq!(abilities[0].state.cooldown.remaining(), Duration::ZERO);
    assert_eq!(abilities[1].state.cooldown.remaining(), Duration::from_secs(2));
}

#[test]
fn tick_ability_charge_advances_only_what_is_held() {
    let mut abilities = vec![ability(1, 0, TICK), ability(2, 0, TICK), ability(3, 0, TICK)];
    abilities[1].activation = Activation::Charging;
    tick_ability_charge(&mut abilities, Duration::from_millis(250));
    tick_ability_charge(&mut abilities, Duration::from_millis(250));
    assert_eq!(abilities[0].charge.duration(), Duration::ZERO);
    assert_eq!(abilities[1].charge.duration(), Duration::from_millis(500));
    assert_eq!(abilities[2].charge.duration(), Duration::ZERO);
}

#[test]
fn start_charging_presses_the_bound_abilities() {
    let player = character(10, 50_000, &[(DODGE, 700), (ATTACK, 701)]);
    let mut abilities = vec![
        ability(701, 60_000, TICK),
        ability(700, 10_000, TICK),
        ability(702, 0, TICK),
    ];
    start_charging_abilities(&player, &vec![DODGE, ATTACK, 99], &mut abilities);
    assert_eq!(abilities[0].activation, Activation::Idle);
    assert_eq!(abilities[1].activation, Activation::Charging);
    assert_eq!(abilities[2].activation, Activation::Idle);
    assert_eq!(player.mana.current(), Mana(50_000));
}

#[test]
fn trigger_bound_abilities_uses_what_is_ready_and_records_it() {
    let mut player = character(10, 25_000, &[(DODGE, 700), (ATTACK, 701)]);
    let mut abilities = vec![ability(700, 10_000, Duration::from_secs(2)), ability(701, 20_000, TICK)];
    let mut triggers = vec![TriggerAbility { source: 1, ability: 2 }];

    trigger_bound_abilities(&mut player, &vec![DODGE, ATTACK, DODGE], &mut abilities, &mut triggers);

    assert_eq!(
        triggers,
        vec![TriggerAbility { source: 1, ability: 2 }, TriggerAbility { source: 10, ability: 700 }]
    );
    assert_eq!(player.mana.current(), Mana(15_000));
    assert_eq!(abilities[0].state.cooldown.elapsed(), Duration::ZERO);
    assert_eq!(abilities[1].state.cooldown.ready(), Ok(()));
}

#[test]
fn press_then_release_produces_one_usage() {
    let mut sim = one_player();

    let events = sim.tick(TICK, &vec![pressed(&[DODGE])]);
    assert_eq!(events, vec![]);
    assert_eq!(sim.abilities[0].activation, Activation::Charging);
    assert_eq!(sim.abilities[0].charge.duration(), Duration::ZERO);

    for _ in 0..38 {
        let events = sim.tick(TICK, &vec![ActionEdges::default()]);
        assert_eq!(events, vec![]);
    }
    assert_eq!(sim.abilities[0].charge.duration(), TICK * 38);

    let events = sim.tick(TICK, &vec![released(&[DODGE])]);
    assert_eq!(events, vec![TriggerAbility { source: 10, ability: 700 }]);
    assert_eq!(sim.abilities[0].activation, Activation::Idle);
    assert_eq!(sim.abilities[0].charge.duration(), TICK * 39);
    assert_eq!(sim.abilities[0].state.cooldown.elapsed(), Duration::ZERO);
    assert_eq!(sim.characters[0].mana.current(), Mana(50_000 + 40 * 78 - 10_000));
}

#[test]
fn release_on_cooldown_produces_nothing() {
    let mut sim = one_player();
    assert_eq!(sim.tick(TICK, &vec![released(&[DODGE])]).len(), 1);
    let mana = sim.characters[0].mana.current();

    let events = sim.tick(Duration::ZERO, &vec![released(&[DODGE])]);
    assert_eq!(events, vec![]);
    assert_eq!(sim.characters[0].mana.current(), mana);
    assert_eq!(sim.abilities[0].state.cooldown.elapsed(), Duration::ZERO);
}

#[test]
fn release_after_the_mana_was_drained_produces_nothing_and_ends_the_charge() {
    let mut sim = one_player();
    sim.tick(TICK, &vec![pressed(&[DODGE])]);
    assert_eq!(sim.abilities[0].activation, Activation::Charging);
    let left = sim.characters[0].mana.current();
    sim.characters[0].mana.expend(left).unwrap();

    let events = sim.tick(Duration::from_millis(100), &vec![released(&[DODGE])]);
    assert_eq!(events, vec![]);
    assert_eq!(sim.abilities[0].activation, Activation::Idle);
    assert_eq!(sim.abilities[0].state.cooldown.ready(), Ok(()));
    assert_eq!(sim.characters[0].mana.current(), Mana(500));
}

#[test]
fn press_when_not_ready_does_not_start_a_charge() {
    let mut sim = one_player();
    sim.tick(TICK, &vec![released(&[DODGE])]);
    sim.tick(TICK, &vec![pressed(&[DODGE])]);
    assert_eq!(sim.abilities[0].activation, Activation::Idle);
    sim.tick(Duration::from_secs(1), &vec![ActionEdges::default()]);
    assert_eq!(sim.abilities[0].charge.duration(), Duration::ZERO);
}

#[test]
fn time_passes_before_the_inputs_are_handled() {
    let mut sim = Simulation {
        characters: vec![character(10, 9_000, &[(DODGE, 700)])],
        abilities: vec![ability(700, 10_000, Duration::from_secs(2))],
    };
    sim.abilities[0].state.cooldown.trigger().unwrap();
    sim.tick(Duration::from_secs(1), &vec![]);
    assert_eq!(sim.characters[0].mana.current(), Mana(14_000));
    assert_eq!(sim.abilities[0].state.cooldown.remaining(), Duration::from_secs(1));

    let events = sim.tick(
        Duration::from_secs(1),
        &vec![ActionEdges { just_pressed: vec![DODGE], just_released: vec![DODGE] }],
    );
    assert_eq!(events, vec![TriggerAbility { source: 10, ability: 700 }]);
    assert_eq!(sim.characters[0].mana.current(), Mana(9_000));
    assert_eq!(sim.abilities[0].activation, Activation::Idle);
    assert_eq!(sim.abilities[0].charge.duration(), Duration::ZERO);
}

#[test]
fn a_starting_charge_is_not_advanced_by_its_own_tick() {
    let mut sim = one_player();
    sim.tick(Duration::from_secs(1), &vec![pressed(&[DODGE])]);
    assert_eq!(sim.abilities[0].charge.duration(), Duration::ZERO);
    sim.tick(Duration::from_millis(600), &vec![released(&[DODGE])]);
    assert_eq!(sim.abilities[0].charge.duration(), Duration::from_millis(600));
}

#[test]
fn actions_without_an_ability_are_ignored() {
    let mut sim = Simulation {
        characters: vec![character(10, 50_000, &[(DODGE, 700), (ATTACK, 999)])],
        abilities: vec![ability(700, 10_000, Duration::from_secs(2))],
    };
    let events = sim.tick(
        Duration::ZERO,
        &vec![ActionEdges { just_pressed: vec![ATTACK, 77], just_released: vec![77, ATTACK] }],
    );
    assert_eq!(events, vec![]);
    assert_eq!(sim.abilities[0].activation, Activation::Idle);
    assert_eq!(sim.characters[0].mana.current(), Mana(50_000));
}

#[test]
fn characters_without_edges_only_see_time_pass() {
    let mut sim = Simulation {
        characters: vec![character(10, 0, &[(DODGE, 700)]), character(11, 0, &[(DODGE, 701)])],
        abilities: vec![ability(700, 0, TICK), ability(701, 0, TICK)],
    };
    let events = sim.tick(Duration::from_secs(1), &vec![released(&[DODGE])]);
    assert_eq!(events, vec![TriggerAbility { source: 10, ability: 700 }]);
    assert_eq!(sim.characters[1].mana.current(), Mana(5_000));
    assert_eq!(sim.abilities[1].state.cooldown.ready(), Ok(()));

    let events = sim.tick(
        Duration::from_secs(1),
        &vec![ActionEdges::default(), released(&[DODGE]), released(&[DODGE])],
    );
    assert_eq!(events, vec![TriggerAbility { source: 11, ability: 701 }]);
}

#[test]
fn usages_come_in_the_order_of_characters_and_actions() {
    let mut sim = Simulation {
        characters: vec![
            character(20, 50_000, &[(DODGE, 2), (ATTACK, 1)]),
            character(10, 50_000, &[(DODGE, 4), (ATTACK, 3)]),
        ],
        abilities: vec![
            ability(1, 0, TICK),
            ability(2, 0, TICK),
            ability(3, 0, TICK),
            ability(4, 0, TICK),
        ],
    };
    let events = sim.tick(TICK, &vec![released(&[DODGE, ATTACK]), released(&[ATTACK, DODGE])]);
    assert_eq!(
        events,
        vec![
            TriggerAbility { source: 20, ability: 2 },
            TriggerAbility { source: 20, ability: 1 },
            TriggerAbility { source: 10, ability: 3 },
            TriggerAbility { source: 10, ability: 4 },
        ]
    );
}

#[test]
fn a_shared_ability_is_used_by_whoever_releases_first() {
    let mut sim = Simulation {
        characters: vec![character(1, 50_000, &[(DODGE, 700)]), character(2, 50_000, &[(DODGE, 700)])],
        abilities: vec![ability(700, 10_000, Duration::from_secs(2))],
    };
    let events = sim.tick(TICK, &vec![released(&[DODGE]), released(&[DODGE])]);
    assert_eq!(events, vec![TriggerAbility { source: 1, ability: 700 }]);
    assert_eq!(sim.characters[0].mana.current(), Mana(40_078));
    assert_eq!(sim.characters[1].mana.current(), Mana(50_078));
}

#[test]
fn of_two_abilities_with_one_identifier_the_first_is_used() {
    let mut sim = Simulation {
        characters: vec![character(1, 50_000, &[(DODGE, 700)])],
        abilities: vec![ability(700, 10_000, TICK), ability(700, 20_000, TICK)],
    };
    let events = sim.tick(Duration::ZERO, &vec![released(&[DODGE])]);
    assert_eq!(events, vec![TriggerAbility { source: 1, ability: 700 }]);
    assert_eq!(sim.characters[0].mana.current(), Mana(40_000));
    assert_eq!(sim.abilities[1].state.cooldown.ready(), Ok(()));
}

#[test]
fn life_costs_are_paid_from_the_life_pool() {
    let mut sim = Simulation {
        characters: vec![character(1, 50_000, &[(ATTACK, 5)])],
        abilities: vec![Ability::new(
            5,
            AbilityState {
                cooldown: Cooldown::new(Duration::from_secs(1)),
                mp_cost: None,
                lp_cost: Some(AbilityCost::<LifePool>(Life(30_000))),
            },
        )],
    };
    let events = sim.tick(Duration::ZERO, &vec![released(&[ATTACK])]);
    assert_eq!(events.len(), 1);
    assert_eq!(sim.characters[0].life.current(), Life(70_000));
    assert_eq!(sim.characters[0].mana.current(), Mana(50_000));
}

fn script() -> Vec<(Duration, Vec<ActionEdges>)> {
    let mut steps = Vec::new();
    let mut seed: u64 = 42;
    for _ in 0..400 {
        let mut inputs = Vec::new();
        for _ in 0..3 {
            let mut edges = ActionEdges::default();
            for _ in 0..2 {
                seed = seed.wrapping_mul(6364136223846793005).wrapping_add(1442695040888963407);
                match (seed >> 60) % 8 {
                    0 => edges.just_pressed.push((seed >> 20) % 4),
                    1 => edges.just_released.push((seed >> 20) % 4),
                    _ => {}
                }
            }
            inputs.push(edges);
        }
        steps.push((TICK, inputs));
    }
    steps
}

fn three_players() -> Simulation {
    Simulation {
        characters: vec![
            character(10, 50_000, &[(DODGE, 700), (ATTACK, 701)]),
            character(11, 12_000, &[(DODGE, 702), (ATTACK, 701), (3, 703)]),
            character(12, 0, &[(0, 700)]),
        ],
        abilities: vec![
            ability(700, 10_000, Duration::from_secs(2)),
            ability(701, 300, Duration::from_millis(100)),
            ability(702, 12_500, Duration::from_millis(50)),
            ability(703, 0, TICK),
        ],
    }
}

#[test]
fn two_runs_of_the_same_script_end_in_the_same_world() {
    let mut first = three_players();
    let mut second = three_players();
    let mut first_events = Vec::new();
    let mut second_events = Vec::new();
    for (delta, inputs) in script() {
        first_events.push(first.tick(delta, &inputs));
    }
    for (delta, inputs) in script() {
        second_events.push(second.tick(delta, &inputs));
    }
    assert_eq!(first, second);
    assert_eq!(first_events, second_events);
    assert!(first_events.iter().any(|events| !events.is_empty()));
}

#[test]
fn a_run_from_a_snapshot_repeats_the_run_it_was_taken_from() {
    let steps = script();
    let mut world = three_players();
    for (delta, inputs) in &steps[..150] {
        world.tick(*delta, inputs);
    }
    let snapshot = world.clone();
    assert_eq!(snapshot, world);

    let mut predicted = Vec::new();
    for (delta, inputs) in &steps[150..] {
        predicted.push(world.tick(*delta, inputs));
    }

    let mut replay = snapshot.clone();
    let mut replayed = Vec::new();
    for (delta, inputs) in &steps[150..] {
        replayed.push(replay.tick(*delta, inputs));
    }
    assert_eq!(replay, world);
    assert_eq!(replayed, predicted);
    assert_ne!(snapshot, world);
}

#[test]
fn the_world_stays_within_its_bounds() {
    let mut world = three_players();
    for (delta, inputs) in script() {
        world.tick(delta, &inputs);
        assert_eq!(world.characters.len(), 3);
        assert_eq!(world.abilities.len(), 4);
        for character in &world.characters {
            assert!(Life(0) <= character.life.current());
            assert!(character.life.current() <= character.life.max());
            assert!(Mana(0) <= character.mana.current());
            assert!(character.mana.current() <= character.mana.max());
        }
        for ability in &world.abilities {
            assert!(ability.state.cooldown.elapsed() <= ability.state.cooldown.duration());
        }
    }
}

#[test]
fn clone_of_a_character_is_the_same_character() {
    let player = character(10, 50_000, &[(DODGE, 700)]);
    let copy = player.clone();
    assert_eq!(copy, player);
    assert_eq!(copy.abilities.mapped(DODGE), Ok(700));
}

#[test]
fn an_empty_world_ticks() {
    let mut world = Simulation { characters: Vec::new(), abilities: Vec::new() };
    assert_eq!(world.tick(TICK, &vec![pressed(&[DODGE])]), vec![]);
    assert_eq!(world, Simulation { characters: Vec::new(), abilities: Vec::new() });
}
