use sectarii::bridge::{
    build_inputs, check_batch, ControlChannels, InputSchema, BASE_ARITY, FULL_ARITY, MID_ARITY,
};
use sectarii::clock::{BioClock, LONG_PERIOD, SHORT_PERIOD};
use sectarii::sensor::SensorReading;
use sectarii::units::ONE;
use sectarii::vitals::Vitals;

fn channels() -> ControlChannels {
    ControlChannels {
        food_proximity: 1,
        food_bearing: 2,
        rival_proximity: 3,
        rival_bearing: 4,
        stamina: 5,
        osc_short: 6,
        osc_long: 7,
        health: 8,
        satiety: 9,
        linvel: 10,
        angvel: 11,
    }
}

#[test]
fn input_vector_follows_the_fixed_channel_order() {
    let v = build_inputs(&channels(), &InputSchema { arity: FULL_ARITY });
    assert_eq!(v, vec![1, 2, 3, 4, 5, 6, 7, 8, 9, 10, 11]);
}

#[test]
fn input_vector_respects_the_declared_arity() {
    let c = channels();
    assert_eq!(build_inputs(&c, &InputSchema { arity: BASE_ARITY }), vec![1, 2, 3, 4, 5]);
    assert_eq!(build_inputs(&c, &InputSchema { arity: MID_ARITY }), vec![1, 2, 3, 4, 5, 6, 7]);
}

#[test]
fn schema_grows_five_seven_eleven() {
    let mut s = InputSchema::initial();
    assert_eq!(s.arity, 5);
    s.grow_two();
    assert_eq!(s.arity, 7);
    s.grow_four();
    assert_eq!(s.arity, 11);
}

#[test]
fn batch_check_flags_any_arity_mismatch() {
    let c = channels();
    let schema = InputSchema { arity: MID_ARITY };
    let good = vec![build_inputs(&c, &schema), build_inputs(&c, &schema)];
    assert!(check_batch(&good, MID_ARITY));
    let mut bad = good.clone();
    bad.push(vec![0; 5]);
    assert!(!check_batch(&bad, MID_ARITY));
}

#[test]
fn gather_maps_state_to_channels() {
    let reading = SensorReading {
        food_proximity: 21,
        food_bearing: 22,
        rival_proximity: 23,
        rival_bearing: 24,
    };
    let vitals = Vitals { hp: 31, satiety: 32, stamina: 33 };
    let c = ControlChannels::gather(&reading, &vitals, -ONE, ONE, 41, 42);
    let v = build_inputs(&c, &InputSchema { arity: FULL_ARITY });
    assert_eq!(v, vec![21, 22, 23, 24, 33, -ONE, ONE, 31, 32, 41, 42]);
}

#[test]
fn clock_starts_short_zero_long_one() {
    let c = BioClock::new();
    assert_eq!(c.short_state, 0);
    assert_eq!(c.long_state, 1);
    assert_eq!(c.short_channel(), 0);
    assert_eq!(c.long_channel(), ONE);
}

#[test]
fn short_rhythm_cycles_zero_one_minus_one() {
    let mut c = BioClock::new();
    c.tick(SHORT_PERIOD);
    assert_eq!(c.short_state, 1);
    c.tick(SHORT_PERIOD);
    assert_eq!(c.short_state, -1);
    c.tick(SHORT_PERIOD);
    assert_eq!(c.short_state, 0);
    assert_eq!(c.short_elapsed, 0);
}

#[test]
fn rhythms_step_only_on_their_own_period() {
    let mut c = BioClock::new();
    // seven half-second wraps: one short of the long period
    for _ in 0..7 {
        c.tick(SHORT_PERIOD);
    }
    assert_eq!(c.long_state, 1);
    c.tick(SHORT_PERIOD);
    assert_eq!(c.long_elapsed, 8 * SHORT_PERIOD - LONG_PERIOD);
    assert_eq!(c.long_state, -1);
}

#[test]
fn partial_ticks_accumulate() {
    let mut c = BioClock::new();
    c.tick(SHORT_PERIOD - 1);
    assert_eq!(c.short_state, 0);
    c.tick(1);
    assert_eq!(c.short_state, 1);
    assert_eq!(c.short_elapsed, 0);
}
