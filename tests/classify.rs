use gestures::{PinchDir, SwipeDir, FIXED_ONE};

#[test]
fn no_motion_is_any() {
    assert_eq!(SwipeDir::dir(0, 0), SwipeDir::Any);
}

#[test]
fn horizontal_axis() {
    assert_eq!(SwipeDir::dir(5, 0), SwipeDir::E);
    assert_eq!(SwipeDir::dir(-5, 0), SwipeDir::W);
    assert_eq!(SwipeDir::dir(i64::MAX, 0), SwipeDir::E);
    assert_eq!(SwipeDir::dir(i64::MIN, 0), SwipeDir::W);
}

#[test]
fn vertical_axis() {
    assert_eq!(SwipeDir::dir(0, 7), SwipeDir::S);
    assert_eq!(SwipeDir::dir(0, -7), SwipeDir::N);
}

#[test]
fn equal_magnitudes_are_diagonal() {
    assert_eq!(SwipeDir::dir(3, -3), SwipeDir::NE);
    assert_eq!(SwipeDir::dir(-3, -3), SwipeDir::NW);
    assert_eq!(SwipeDir::dir(3, 3), SwipeDir::SE);
    assert_eq!(SwipeDir::dir(-3, 3), SwipeDir::SW);
    assert_eq!(SwipeDir::dir(i64::MIN, i64::MIN), SwipeDir::NW);
}

#[test]
fn scaling_keeps_direction() {
    let samples: [(i64, i64); 6] = [(3, 1), (1, 3), (-5, 2), (10, -4), (-2, -9), (7, 7)];
    for (dx, dy) in samples {
        for k in [1i64, 2, 10, 1000] {
            assert_eq!(SwipeDir::dir(dx, dy), SwipeDir::dir(k * dx, k * dy));
        }
    }
}

#[test]
fn diagonal_boundary() {
    assert_eq!(SwipeDir::dir(FIXED_ONE, -414_213), SwipeDir::E);
    assert_eq!(SwipeDir::dir(FIXED_ONE, -414_214), SwipeDir::NE);
    assert_eq!(SwipeDir::dir(-414_213, FIXED_ONE), SwipeDir::S);
    assert_eq!(SwipeDir::dir(-414_214, FIXED_ONE), SwipeDir::SW);
}

#[test]
fn pinch_rotation_and_zoom() {
    assert_eq!(PinchDir::dir(FIXED_ONE, 5 * FIXED_ONE), PinchDir::Clockwise);
    assert_eq!(PinchDir::dir(FIXED_ONE, -5 * FIXED_ONE), PinchDir::CounterClockwise);
    assert_eq!(PinchDir::dir(1_200_000, 0), PinchDir::Out);
    assert_eq!(PinchDir::dir(800_000, 0), PinchDir::In);
}

#[test]
fn pinch_band_is_open() {
    assert_eq!(PinchDir::dir(920_000, 1), PinchDir::In);
    assert_eq!(PinchDir::dir(920_001, 1), PinchDir::Clockwise);
    assert_eq!(PinchDir::dir(1_079_999, 0), PinchDir::CounterClockwise);
    assert_eq!(PinchDir::dir(1_080_000, 1), PinchDir::Out);
}
