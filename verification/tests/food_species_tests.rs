use sectarii::food::{
    cull_depleted, regrow, seed_food, FOOD_CAP, REGROW_HP_MAX, REGROW_HP_MIN, REGROW_RADIUS,
    SEED_HP_MAX, SEED_HP_MIN,
};
use sectarii::sectarii::Food;
use sectarii::species::SpeciesRegistry;
use sectarii::units::ONE;

fn plain_food(id: u64, hp: i64) -> Food {
    Food { id, hp, x: 0, y: 0 }
}

#[test]
fn seeding_fills_the_field() {
    let foods = seed_food(1_000, 0);
    assert_eq!(foods.len(), 1_000);
    for (i, f) in foods.iter().enumerate() {
        assert_eq!(f.id, i as u64);
        assert!(SEED_HP_MIN <= f.hp && f.hp < SEED_HP_MAX);
    }
}

#[test]
fn regrowth_below_the_cap_adds_exactly_one() {
    let mut foods = vec![plain_food(0, ONE), plain_food(1, ONE)];
    let spawned = regrow(&mut foods, 55);
    assert!(spawned);
    assert_eq!(foods.len(), 3);
    let new = foods[2];
    assert_eq!(new.id, 55);
    assert!(REGROW_HP_MIN <= new.hp && new.hp < REGROW_HP_MAX);
    assert!(-REGROW_RADIUS <= new.x && new.x <= REGROW_RADIUS);
    assert!(-REGROW_RADIUS <= new.y && new.y <= REGROW_RADIUS);
}

#[test]
fn regrowth_at_the_cap_adds_nothing() {
    let mut foods: Vec<Food> = (0..FOOD_CAP as u64).map(|i| plain_food(i, ONE)).collect();
    let spawned = regrow(&mut foods, 99_999);
    assert!(!spawned);
    assert_eq!(foods.len(), FOOD_CAP);
}

#[test]
fn population_never_exceeds_the_cap() {
    let mut foods: Vec<Food> = (0..(FOOD_CAP - 1) as u64).map(|i| plain_food(i, ONE)).collect();
    for round in 0..3u64 {
        regrow(&mut foods, 10_000 + round);
        assert!(foods.len() <= FOOD_CAP);
    }
    assert_eq!(foods.len(), FOOD_CAP);
}

#[test]
fn depleted_food_collapses() {
    let mut foods = vec![plain_food(0, ONE), plain_food(1, 0), plain_food(2, -5)];
    let removed = cull_depleted(&mut foods);
    assert_eq!(foods.len(), 1);
    assert_eq!(foods[0].id, 0);
    assert_eq!(removed, vec![1, 2]);
}

#[test]
fn species_resources_are_created_once() {
    let mut reg = SpeciesRegistry::new();
    assert!(reg.ensure_present(4));
    assert!(!reg.ensure_present(4));
    assert!(reg.ensure_present(9));
    assert_eq!(reg.entries, vec![4, 9]);
}

#[test]
fn sweep_drops_exactly_the_dead_species() {
    let mut reg = SpeciesRegistry::new();
    reg.ensure_present(1);
    reg.ensure_present(2);
    reg.ensure_present(3);
    let dropped = reg.sweep(&vec![1, 3, 8]);
    assert_eq!(reg.entries, vec![1, 3]);
    assert_eq!(dropped, vec![2]);
}

#[test]
fn sweep_of_an_all_live_cache_drops_nothing() {
    let mut reg = SpeciesRegistry::new();
    reg.ensure_present(5);
    reg.ensure_present(6);
    let dropped = reg.sweep(&vec![6, 5]);
    assert_eq!(reg.entries, vec![5, 6]);
    assert!(dropped.is_empty());
}
