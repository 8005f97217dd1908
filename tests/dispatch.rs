use gestures::{
    Action, Config, Gesture, Hold, Phase, Pinch, PinchDir, Swipe, SwipeDir, FIXED_ONE,
};

fn swipe(direction: SwipeDir, fingers: i32, update: Option<&str>) -> Gesture {
    Gesture::Swipe(Swipe {
        direction,
        fingers,
        update: update.map(String::from),
        start: None,
        end: None,
        acceleration: None,
        mouse_up_delay: None,
    })
}

fn exec(command: &str, dx: i64, dy: i64, angle_delta: i64, scale: i64) -> Action {
    Action::Exec { command: command.to_string(), dx, dy, angle_delta, scale }
}

fn update(direction: SwipeDir) -> Phase {
    Phase::SwipeUpdate { fingers: 3, direction, dx: 4, dy: 0 }
}

#[test]
fn duplicate_bindings_both_fire() {
    let config = Config {
        gestures: vec![swipe(SwipeDir::E, 3, Some("a")), swipe(SwipeDir::E, 3, Some("b"))],
    };
    assert_eq!(
        config.dispatch(&update(SwipeDir::E), false),
        vec![exec("a", 4, 0, 0, 0), exec("b", 4, 0, 0, 0)]
    );
}

#[test]
fn wildcard_matches_every_direction() {
    let config = Config { gestures: vec![swipe(SwipeDir::Any, 3, Some("any"))] };
    for d in [
        SwipeDir::N,
        SwipeDir::S,
        SwipeDir::E,
        SwipeDir::W,
        SwipeDir::NE,
        SwipeDir::NW,
        SwipeDir::SE,
        SwipeDir::SW,
    ] {
        assert_eq!(config.dispatch(&update(d), false), vec![exec("any", 4, 0, 0, 0)]);
    }
}

#[test]
fn specific_direction_matches_only_itself() {
    let config = Config { gestures: vec![swipe(SwipeDir::N, 3, Some("up"))] };
    assert_eq!(config.dispatch(&update(SwipeDir::N), false).len(), 1);
    assert!(config.dispatch(&update(SwipeDir::NE), false).is_empty());
    assert!(config.dispatch(&update(SwipeDir::S), false).is_empty());
}

#[test]
fn finger_count_and_kind_must_match() {
    let config = Config {
        gestures: vec![
            swipe(SwipeDir::Any, 4, Some("four")),
            Gesture::Hold(Hold { fingers: 3, action: Some("hold".to_string()) }),
            Gesture::Idle,
        ],
    };
    assert!(config.dispatch(&update(SwipeDir::E), false).is_empty());
    assert_eq!(config.dispatch(&Phase::HoldEnd { fingers: 3 }, false), vec![exec("hold", 0, 0, 0, 0)]);
}

#[test]
fn unset_slot_is_silent() {
    let config = Config { gestures: vec![swipe(SwipeDir::Any, 3, None)] };
    assert!(config.dispatch(&update(SwipeDir::E), false).is_empty());
}

#[test]
fn pinch_update_carries_angle_and_scale() {
    let config = Config {
        gestures: vec![Gesture::Pinch(Pinch {
            fingers: 2,
            direction: PinchDir::Out,
            update: Some("zoom".to_string()),
            start: None,
            end: None,
        })],
    };
    let phase = Phase::PinchUpdate {
        fingers: 2,
        direction: PinchDir::Out,
        scale: 1_200_000,
        angle_delta: 3,
    };
    assert_eq!(config.dispatch(&phase, false), vec![exec("zoom", 0, 0, 3, 1_200_000)]);
    let rotate = Phase::PinchUpdate {
        fingers: 2,
        direction: PinchDir::Clockwise,
        scale: FIXED_ONE,
        angle_delta: 3,
    };
    assert!(config.dispatch(&rotate, false).is_empty());
}

fn drag() -> Gesture {
    Gesture::Swipe(Swipe {
        direction: SwipeDir::Any,
        fingers: 3,
        update: Some("cmd".to_string()),
        start: Some("cmd-s".to_string()),
        end: None,
        acceleration: Some(20),
        mouse_up_delay: Some(300),
    })
}

#[test]
fn fast_path_moves_pointer() {
    let config = Config { gestures: vec![drag()] };
    assert_eq!(
        config.dispatch(&Phase::SwipeBegin { fingers: 3 }, true),
        vec![Action::MouseDown { button: 1 }]
    );
    let phase = Phase::SwipeUpdate {
        fingers: 3,
        direction: SwipeDir::E,
        dx: 2_550_000,
        dy: -1_260_000,
    };
    assert_eq!(config.dispatch(&phase, true), vec![Action::MouseMove { dx: 5, dy: -2 }]);
    assert_eq!(
        config.dispatch(&Phase::SwipeEnd { fingers: 3, direction: SwipeDir::E }, true),
        vec![Action::MouseUp { button: 1, delay: 300 }]
    );
}

#[test]
fn fast_path_saturates() {
    let config = Config { gestures: vec![drag()] };
    let phase = Phase::SwipeUpdate { fingers: 3, direction: SwipeDir::E, dx: i64::MAX, dy: i64::MIN };
    assert_eq!(
        config.dispatch(&phase, true),
        vec![Action::MouseMove { dx: i32::MAX, dy: i32::MIN }]
    );
}

#[test]
fn fast_path_needs_legacy_windowing() {
    let config = Config { gestures: vec![drag()] };
    assert_eq!(
        config.dispatch(&Phase::SwipeBegin { fingers: 3 }, false),
        vec![exec("cmd-s", 0, 0, 0, 0)]
    );
    let phase = Phase::SwipeUpdate { fingers: 3, direction: SwipeDir::E, dx: 7, dy: 0 };
    assert_eq!(config.dispatch(&phase, false), vec![exec("cmd", 7, 0, 0, 0)]);
}
