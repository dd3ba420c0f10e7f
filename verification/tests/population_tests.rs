use rusty_neat::{ActFunc, NeatContinous, NN};

use sectarii::population::{grow_population, live_species};
use sectarii::sectarii::{Food, StealContact, StealTarget};
use sectarii::units::{TICK, TWO};
use sectarii::world::settle_tick;
use sectarii::repro::{reproduction_phase, REPRO_THRESHOLD};
use sectarii::sectarii::{Brain, Sectarian};
use sectarii::species::SpeciesRegistry;
use sectarii::units::ONE;
use sectarii::vitals::Vitals;

fn small_population(size: usize) -> NeatContinous {
    let agent = NN::new(
        5,
        2,
        Some((8, 2)),
        true,
        0.75,
        ActFunc::SigmoidBipolar,
        &[ActFunc::SigmoidBipolar, ActFunc::SELU, ActFunc::Identity],
    );
    NeatContinous::new(&agent, size, 4)
}

fn agent_with_satiety(id: u64, key: usize, satiety: i64) -> Sectarian {
    Sectarian {
        id,
        species: 0,
        brain: Brain::new(key),
        vitals: Vitals { hp: ONE, satiety, stamina: ONE },
    }
}

#[test]
fn crossing_the_threshold_breeds_exactly_once() {
    let mut pop = small_population(4);
    let mut registry = SpeciesRegistry::new();
    // satiety 1.76: above the 1.75 threshold by 0.01
    let satiety = 176 * ONE / 100;
    assert!(satiety > REPRO_THRESHOLD);
    let mut agents = vec![agent_with_satiety(1, 0, satiety)];
    let births = reproduction_phase(&mut agents, &mut pop, &mut registry);
    assert_eq!(births.len(), 1);
    // the debit is exactly 1.0, leaving exactly 0.76
    assert_eq!(agents[0].vitals.satiety, 76 * ONE / 100);
    assert_eq!(births[0].parent_id, 1);
    // a second pass does not re-trigger
    let births2 = reproduction_phase(&mut agents, &mut pop, &mut registry);
    assert!(births2.is_empty());
    assert_eq!(agents[0].vitals.satiety, 76 * ONE / 100);
}

#[test]
fn satiety_at_the_threshold_does_not_breed() {
    let mut pop = small_population(4);
    let mut registry = SpeciesRegistry::new();
    let mut agents = vec![agent_with_satiety(1, 0, REPRO_THRESHOLD)];
    let births = reproduction_phase(&mut agents, &mut pop, &mut registry);
    assert!(births.is_empty());
    assert_eq!(agents[0].vitals.satiety, REPRO_THRESHOLD);
}

#[test]
fn offspring_gets_a_fresh_key_and_a_cached_species() {
    let mut pop = small_population(4);
    let mut registry = SpeciesRegistry::new();
    let keys_before: Vec<usize> = pop.agents.keys().cloned().collect();
    let mut agents = vec![agent_with_satiety(1, 2, 2 * ONE)];
    let births = reproduction_phase(&mut agents, &mut pop, &mut registry);
    assert_eq!(births.len(), 1);
    assert!(!keys_before.contains(&births[0].key));
    assert!(pop.agents.contains_key(&births[0].key));
    assert!(registry.entries.contains(&births[0].species));
    assert!(pop.species_table.contains_key(&births[0].species));
}

#[test]
fn every_breeder_breeds_in_order() {
    let mut pop = small_population(6);
    let mut registry = SpeciesRegistry::new();
    let mut agents = vec![
        agent_with_satiety(1, 0, 2 * ONE),
        agent_with_satiety(2, 1, ONE),
        agent_with_satiety(3, 2, 2 * ONE),
    ];
    let births = reproduction_phase(&mut agents, &mut pop, &mut registry);
    assert_eq!(births.len(), 2);
    assert_eq!(births[0].parent_index, 0);
    assert_eq!(births[1].parent_index, 2);
    assert_eq!(agents[1].vitals.satiety, ONE);
}

#[test]
fn live_species_mirrors_the_population_table() {
    let mut pop = small_population(8);
    pop.speciate();
    pop.speciate();
    let mut live = live_species(&pop);
    let mut table: Vec<usize> = pop.species_table.keys().cloned().collect();
    live.sort();
    table.sort();
    assert_eq!(live, table);
}

#[test]
fn growing_the_population_adds_input_nodes() {
    let mut pop = small_population(4);
    // 5 declared inputs plus the bias node
    assert!(pop.agents.values().all(|a| a.size.0 == 6));
    grow_population(&mut pop, 2);
    assert!(pop.agents.values().all(|a| a.size.0 == 8));
    grow_population(&mut pop, 4);
    assert!(pop.agents.values().all(|a| a.size.0 == 12));
}

#[test]
fn a_settled_tick_keeps_the_world_invariants() {
    let mut pop = small_population(6);
    let mut registry = SpeciesRegistry::new();
    let mut agents = vec![
        agent_with_satiety(1, 0, 2 * ONE),
        agent_with_satiety(2, 1, ONE / 4),
        agent_with_satiety(3, 2, ONE),
    ];
    // the second agent is at terminal health after this tick
    agents[1].vitals.hp = 1;
    agents[1].brain.linvel = 20 * ONE;
    agents[1].vitals.stamina = 0;
    agents[1].vitals.satiety = 0;
    let mut foods = vec![
        Food { id: 100, hp: TICK / 2, x: 0, y: 0 },
        Food { id: 101, hp: ONE, x: 0, y: 0 },
    ];
    let contacts = vec![
        StealContact { owner: 0, target: StealTarget::Food(0) },
        StealContact { owner: 0, target: StealTarget::Rival(2) },
    ];
    let out = settle_tick(&mut agents, &mut foods, &contacts, &mut pop, &mut registry, 500);
    // the clamp invariant holds of every survivor
    for a in agents.iter() {
        assert!(0 < a.vitals.hp && a.vitals.hp <= TWO);
        assert!(0 <= a.vitals.satiety && a.vitals.satiety <= TWO);
        assert!(0 <= a.vitals.stamina && a.vitals.stamina <= TWO);
    }
    // the starving overdrawn agent died and is gone
    assert_eq!(out.removed_agents, vec![2]);
    assert!(agents.iter().all(|a| a.id != 2));
    // the nibbled food item collapsed, and one item grew back
    assert_eq!(out.removed_foods, vec![100]);
    assert!(out.food_spawned);
    assert_eq!(foods.len(), 2);
    assert_eq!(foods[1].id, 500);
    // the well-fed agent bred exactly once
    assert_eq!(out.births.len(), 1);
    assert_eq!(out.births[0].parent_id, 1);
    assert_eq!(out.credits.len(), 2);
}
