use sectarii::sectarii::{
    cache_kinematics, cull_dead, metabolic_phase, reclamp_phase, resolve_steals, Brain, Food,
    Sectarian, StealContact, StealTarget, HALF_TICK, STEAL_HEALTH_GAIN, STEAL_SATIETY_GAIN,
};
use sectarii::units::{ONE, TICK, TWO};
use sectarii::vitals::Vitals;

fn agent(id: u64, key: usize, hp: i64, satiety: i64, stamina: i64) -> Sectarian {
    Sectarian { id, species: 0, brain: Brain::new(key), vitals: Vitals { hp, satiety, stamina } }
}

#[test]
fn stealing_from_food_feeds_satiety() {
    let mut agents = vec![agent(1, 40, ONE, ONE, ONE)];
    let mut foods = vec![Food { id: 100, hp: ONE, x: 0, y: 0 }];
    let contacts = vec![StealContact { owner: 0, target: StealTarget::Food(0) }];
    let credits = resolve_steals(&mut agents, &mut foods, &contacts);
    assert_eq!(foods[0].hp, ONE - TICK);
    assert_eq!(agents[0].vitals.satiety, ONE + TICK);
    assert_eq!(agents[0].vitals.hp, ONE);
    assert_eq!(agents[0].brain.feeding_fitness, HALF_TICK);
    assert_eq!(agents[0].brain.combat_fitness, 0);
    assert_eq!(credits, vec![(40, TICK)]);
}

#[test]
fn stealing_from_a_rival_feeds_health_more_than_satiety() {
    let mut agents = vec![agent(1, 40, ONE, ONE, ONE), agent(2, 41, ONE, ONE, ONE)];
    let mut foods = vec![];
    let contacts = vec![StealContact { owner: 0, target: StealTarget::Rival(1) }];
    let credits = resolve_steals(&mut agents, &mut foods, &contacts);
    assert_eq!(agents[1].vitals.hp, ONE - TICK);
    assert_eq!(agents[0].vitals.satiety, ONE + STEAL_SATIETY_GAIN);
    assert_eq!(agents[0].vitals.hp, ONE + STEAL_HEALTH_GAIN);
    assert_eq!(agents[0].brain.combat_fitness, HALF_TICK);
    assert_eq!(agents[0].brain.feeding_fitness, 0);
    assert_eq!(credits, vec![(40, HALF_TICK)]);
    // the asymmetry: 0.3 of a tick to satiety, 0.7 to health
    assert_eq!(STEAL_SATIETY_GAIN + STEAL_HEALTH_GAIN, TICK);
}

#[test]
fn simultaneous_steals_add_up_independently() {
    let mut agents = vec![agent(1, 40, ONE, ONE, ONE), agent(2, 41, ONE, ONE, ONE)];
    let mut foods = vec![Food { id: 100, hp: ONE, x: 0, y: 0 }];
    let contacts = vec![
        StealContact { owner: 0, target: StealTarget::Food(0) },
        StealContact { owner: 0, target: StealTarget::Rival(1) },
        StealContact { owner: 1, target: StealTarget::Food(0) },
    ];
    let credits = resolve_steals(&mut agents, &mut foods, &contacts);
    assert_eq!(foods[0].hp, ONE - 2 * TICK);
    assert_eq!(agents[0].vitals.satiety, ONE + TICK + STEAL_SATIETY_GAIN);
    assert_eq!(agents[1].vitals.satiety, ONE + TICK);
    assert_eq!(agents[1].vitals.hp, ONE - TICK);
    assert_eq!(credits.len(), 3);
}

#[test]
fn metabolic_phase_uses_each_agents_cached_speed() {
    let mut fast = agent(1, 40, ONE, ONE, ONE);
    fast.brain.linvel = 20 * ONE;
    let slow = agent(2, 41, ONE, ONE, ONE);
    let mut agents = vec![fast, slow];
    metabolic_phase(&mut agents);
    assert_eq!(agents[0].vitals.stamina, ONE - 3_267);
    assert_eq!(agents[1].vitals.stamina, ONE + TICK);
}

#[test]
fn reclamp_restores_the_range_after_steals() {
    let mut agents = vec![agent(1, 40, TWO + 90_000, TWO + 36_000, ONE)];
    reclamp_phase(&mut agents);
    assert_eq!(agents[0].vitals.hp, TWO);
    assert_eq!(agents[0].vitals.satiety, TWO);
    assert_eq!(agents[0].vitals.stamina, ONE);
}

#[test]
fn dead_agents_are_absent_the_next_tick() {
    let mut agents = vec![
        agent(1, 40, ONE, ONE, ONE),
        agent(2, 41, 0, ONE, ONE),
        agent(3, 42, ONE / 2, ONE, ONE),
    ];
    let removed = cull_dead(&mut agents);
    assert_eq!(agents.len(), 2);
    assert_eq!(agents[0].id, 1);
    assert_eq!(agents[1].id, 3);
    assert!(agents.iter().all(|a| a.vitals.hp > 0));
    assert_eq!(removed, vec![2]);
}

#[test]
fn cached_kinematics_lag_one_tick() {
    let mut agents = vec![agent(1, 40, ONE, ONE, ONE)];
    cache_kinematics(&mut agents, &vec![(12 * ONE, 3 * ONE)]);
    assert_eq!(agents[0].brain.linvel, 12 * ONE);
    assert_eq!(agents[0].brain.angvel, 3 * ONE);
}
