use sectarii::angle::{bearing, fold_angle, HALF_TURN, QUARTER_TURN, TURN};

#[test]
fn fold_leaves_canonical_angles_alone() {
    assert_eq!(fold_angle(0), 0);
    assert_eq!(fold_angle(QUARTER_TURN), QUARTER_TURN);
    assert_eq!(fold_angle(-QUARTER_TURN), -QUARTER_TURN);
    assert_eq!(fold_angle(HALF_TURN), HALF_TURN);
}

#[test]
fn fold_wraps_whole_turns() {
    assert_eq!(fold_angle(TURN), 0);
    assert_eq!(fold_angle(-TURN), 0);
    assert_eq!(fold_angle(HALF_TURN + 1), HALF_TURN + 1 - TURN);
}

#[test]
fn fold_boundary_maps_to_plus_half_turn() {
    // the -pi boundary folds to +pi, never -pi
    assert_eq!(fold_angle(-HALF_TURN), HALF_TURN);
}

#[test]
fn bearing_straight_ahead_is_zero() {
    // agent at origin facing +Y; target at (0, 10): direction +Y
    assert_eq!(bearing(QUARTER_TURN, QUARTER_TURN), 0);
}

#[test]
fn bearing_to_the_right_is_minus_quarter() {
    // facing +Y, target at (10, 0): direction +X
    assert_eq!(bearing(QUARTER_TURN, 0), -QUARTER_TURN);
}

#[test]
fn bearing_directly_behind_is_plus_half_turn() {
    // facing +Y, target at (0, -10): direction -Y; the boundary fold
    // must yield +pi, not -pi
    assert_eq!(bearing(QUARTER_TURN, -QUARTER_TURN), HALF_TURN);
    assert_ne!(bearing(QUARTER_TURN, -QUARTER_TURN), -HALF_TURN);
}

#[test]
fn bearing_to_the_left_is_plus_quarter() {
    // facing +Y, target at (-10, 0): direction -X
    assert_eq!(bearing(QUARTER_TURN, HALF_TURN), QUARTER_TURN);
}

#[test]
fn bearing_is_rotation_consistent() {
    // rotating agent and target direction together keeps the bearing
    let rot = 123_456;
    let forward = QUARTER_TURN;
    let dir = -QUARTER_TURN;
    let rotated = bearing(fold_angle(forward + rot), fold_angle(dir + rot));
    assert_eq!(rotated, bearing(forward, dir));
}
