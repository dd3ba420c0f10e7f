use sectarii::units::{clamp_metabolic, ONE, TICK, TWO};
use sectarii::vitals::{effort_cost, vitals_tick, Vitals};

#[test]
fn clamp_pins_the_metabolic_range() {
    assert_eq!(clamp_metabolic(-5), 0);
    assert_eq!(clamp_metabolic(0), 0);
    assert_eq!(clamp_metabolic(ONE), ONE);
    assert_eq!(clamp_metabolic(TWO), TWO);
    assert_eq!(clamp_metabolic(TWO + 1), TWO);
}

#[test]
fn effort_cost_at_speed_twenty_is_exact() {
    // (20 - 9)^2 * (1/48) * 0.00075 = 0.001890625 = 3267/ONE exactly
    assert_eq!(effort_cost(20 * ONE), 3_267);
}

#[test]
fn satiety_decays_every_tick() {
    let v = Vitals { hp: ONE, satiety: ONE, stamina: ONE };
    let r = vitals_tick(v, 0);
    assert_eq!(r.satiety, ONE - 800);
    assert_eq!(r.hp, ONE);
}

#[test]
fn starvation_drains_health() {
    let v = Vitals { hp: ONE, satiety: 0, stamina: ONE };
    let r = vitals_tick(v, 0);
    assert_eq!(r.satiety, 0);
    assert_eq!(r.hp, ONE - 2_400);
}

#[test]
fn slow_movement_recovers_stamina() {
    let v = Vitals { hp: ONE, satiety: ONE, stamina: ONE };
    let r = vitals_tick(v, 9 * ONE);
    assert_eq!(r.stamina, ONE + TICK);
}

#[test]
fn stamina_recovery_clamps_at_two() {
    let v = Vitals { hp: ONE, satiety: ONE, stamina: TWO - 1 };
    let r = vitals_tick(v, 0);
    assert_eq!(r.stamina, TWO);
}

#[test]
fn fast_movement_spends_stamina() {
    // speed 20, satiety 1.0, stamina 0.05: the cost of 0.001890625 is
    // covered by stamina alone; satiety only decays, health is untouched
    let v = Vitals { hp: ONE, satiety: ONE, stamina: ONE / 20 };
    let r = vitals_tick(v, 20 * ONE);
    assert_eq!(r.stamina, ONE / 20 - 3_267);
    assert_eq!(r.satiety, ONE - 800);
    assert_eq!(r.hp, ONE);
}

#[test]
fn stamina_deficit_drains_satiety_not_health() {
    // stamina cannot cover the cost; the shortfall is paid by satiety
    // alone while satiety is positive, and health is unchanged that tick
    let v = Vitals { hp: ONE, satiety: ONE, stamina: 1_000 };
    let r = vitals_tick(v, 20 * ONE);
    assert_eq!(r.stamina, 0);
    assert_eq!(r.satiety, ONE - 800 - 2_267);
    assert_eq!(r.hp, ONE);
}

#[test]
fn stamina_deficit_reaches_health_once_satiety_is_gone() {
    let v = Vitals { hp: ONE, satiety: 0, stamina: 1_000 };
    let r = vitals_tick(v, 20 * ONE);
    assert_eq!(r.stamina, 0);
    assert_eq!(r.satiety, 0);
    // starvation damage first, then the stamina shortfall
    assert_eq!(r.hp, ONE - 2_400 - 2_267);
}

#[test]
fn tick_reclamps_every_value() {
    let v = Vitals { hp: TWO + 500_000, satiety: -300_000, stamina: -1 };
    let r = vitals_tick(v, 0);
    assert!(0 <= r.hp && r.hp <= TWO);
    assert!(0 <= r.satiety && r.satiety <= TWO);
    assert!(0 <= r.stamina && r.stamina <= TWO);
    // starvation damage applies, but the surplus above 2 still clamps
    assert_eq!(r.hp, TWO);
    assert_eq!(r.satiety, 0);
    assert_eq!(r.stamina, TICK - 1);
}
