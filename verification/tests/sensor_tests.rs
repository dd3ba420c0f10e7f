use sectarii::angle::QUARTER_TURN;
use sectarii::sensor::{
    displacement_length, isqrt, sense, SensorReading, SightCandidate, SightKind,
};
use sectarii::units::ONE;

fn cand(id: u64, kind: SightKind, dx: i64, dy: i64, dir: i64) -> SightCandidate {
    SightCandidate { id, kind, dx, dy, dir }
}

#[test]
fn isqrt_exact_values() {
    assert_eq!(isqrt(0), 0);
    assert_eq!(isqrt(1), 1);
    assert_eq!(isqrt(3), 1);
    assert_eq!(isqrt(4), 2);
    assert_eq!(isqrt(99), 9);
    assert_eq!(isqrt(100), 10);
    assert_eq!(isqrt(1 << 40), 1 << 20);
    assert_eq!(isqrt(u128::MAX), (1u128 << 64) - 1);
}

#[test]
fn displacement_length_is_euclidean() {
    assert_eq!(displacement_length(3, 4), 5);
    assert_eq!(displacement_length(-3, 4), 5);
    assert_eq!(displacement_length(0, 0), 0);
    assert_eq!(displacement_length(90 * ONE, 0), 90 * ONE);
}

#[test]
fn nothing_in_range_reads_the_zero_sentinel() {
    let r: SensorReading = sense(&vec![], 7, QUARTER_TURN);
    assert_eq!(r.food_proximity, 0);
    assert_eq!(r.food_bearing, 0);
    assert_eq!(r.rival_proximity, 0);
    assert_eq!(r.rival_bearing, 0);
}

#[test]
fn proximity_encodes_one_minus_distance_over_range() {
    // food 90 world units away, straight +X, agent facing +Y
    let cands = vec![cand(1, SightKind::Food, 90 * ONE, 0, 0)];
    let r = sense(&cands, 7, QUARTER_TURN);
    assert_eq!(r.food_proximity, ONE - (90 * ONE) / 180);
    assert_eq!(r.food_proximity, ONE / 2);
    assert_eq!(r.food_bearing, -QUARTER_TURN);
    // no rival: the rival half stays the sentinel
    assert_eq!(r.rival_proximity, 0);
}

#[test]
fn nearest_candidate_wins() {
    let cands = vec![
        cand(1, SightKind::Food, 90 * ONE, 0, 0),
        cand(2, SightKind::Food, 30 * ONE, 0, 0),
        cand(3, SightKind::Food, 60 * ONE, 0, 0),
    ];
    let r = sense(&cands, 7, QUARTER_TURN);
    assert_eq!(r.food_proximity, ONE - (30 * ONE) / 180);
}

#[test]
fn exact_tie_takes_the_earliest_candidate() {
    // same distance, different directions: the first candidate's bearing
    let cands = vec![
        cand(1, SightKind::Rival, 50 * ONE, 0, 0),
        cand(2, SightKind::Rival, 0, 50 * ONE, QUARTER_TURN),
    ];
    let r = sense(&cands, 7, QUARTER_TURN);
    assert_eq!(r.rival_bearing, -QUARTER_TURN);
}

#[test]
fn an_agent_never_senses_itself() {
    let cands = vec![
        cand(7, SightKind::Rival, ONE, 0, 0),
        cand(9, SightKind::Rival, 100 * ONE, 0, 0),
    ];
    let r = sense(&cands, 7, QUARTER_TURN);
    assert_eq!(r.rival_proximity, ONE - (100 * ONE) / 180);
}

#[test]
fn degenerate_zero_displacement_bears_zero() {
    // a rival exactly at the agent's position: no direction exists, the
    // bearing is 0 by definition and proximity is full
    let cands = vec![cand(9, SightKind::Rival, 0, 0, 0)];
    let r = sense(&cands, 7, QUARTER_TURN);
    assert_eq!(r.rival_bearing, 0);
    assert_eq!(r.rival_proximity, ONE);
}

#[test]
fn sensing_twice_on_an_unchanged_world_is_identical() {
    let cands = vec![
        cand(1, SightKind::Food, 90 * ONE, 7 * ONE, 123),
        cand(2, SightKind::Rival, -30 * ONE, 11 * ONE, -456),
        cand(3, SightKind::Food, 62 * ONE, -5 * ONE, 789),
    ];
    let first = sense(&cands, 7, QUARTER_TURN);
    let second = sense(&cands, 7, QUARTER_TURN);
    assert_eq!(first, second);
}
