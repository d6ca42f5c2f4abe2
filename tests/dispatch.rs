use gestures::bindings::{Gesture, Hold, Pinch, Swipe, FIXED_ONE};
use gestures::device::open_access;
use gestures::direction::{Direction, InOut};
use gestures::engine::{
    Action, EventHandler, HoldEvent, LiveGesture, PinchEvent, SwipeEvent, TouchEvent,
};

fn exec(template: &str, dx: i64, dy: i64, scale: i64) -> Action {
    Action::Exec { template: template.to_string(), dx, dy, scale }
}

fn pinch(fingers: i32, direction: InOut, start: Option<&str>, update: Option<&str>, end: Option<&str>) -> Gesture {
    Gesture::Pinch(Pinch {
        fingers,
        direction,
        update: update.map(|s| s.to_string()),
        start: start.map(|s| s.to_string()),
        end: end.map(|s| s.to_string()),
    })
}

#[test]
fn zero_motion_is_any() {
    assert_eq!(Direction::dir(0, 0), Direction::Any);
}

#[test]
fn cardinal_directions() {
    assert_eq!(Direction::dir(10, 0), Direction::E);
    assert_eq!(Direction::dir(-10, 0), Direction::W);
    assert_eq!(Direction::dir(0, -10), Direction::N);
    assert_eq!(Direction::dir(0, 10), Direction::S);
}

#[test]
fn shallow_motion_stays_cardinal() {
    assert_eq!(Direction::dir(10, -3), Direction::E);
}

#[test]
fn steep_motion_refines_to_diagonal() {
    assert_eq!(Direction::dir(10, -5), Direction::NE);
}

#[test]
fn tie_goes_to_vertical_axis() {
    assert_eq!(Direction::dir(10, -10), Direction::NE);
    assert_eq!(Direction::dir(-7, 7), Direction::SW);
}

#[test]
fn other_diagonals_and_near_zero() {
    assert_eq!(Direction::dir(-10, -5), Direction::NW);
    assert_eq!(Direction::dir(10, 5), Direction::SE);
    assert_eq!(Direction::dir(3, -10), Direction::N);
    assert_eq!(Direction::dir(5, -10), Direction::NE);
    assert_eq!(Direction::dir(0, 1), Direction::S);
    assert_eq!(Direction::dir(i64::MIN, i64::MAX), Direction::SW);
}

#[test]
fn direction_is_scale_invariant() {
    let cases: [(i64, i64); 6] = [(10, -3), (10, -5), (10, -10), (-4, 9), (1000, 414), (1000, 415)];
    for (dx, dy) in cases {
        for k in [1i64, 2, 7, 1000, 1_000_000] {
            assert_eq!(Direction::dir(dx, dy), Direction::dir(k * dx, k * dy));
        }
    }
}

#[test]
fn every_matching_hold_fires() {
    let config = vec![
        Gesture::Hold(Hold { fingers: 3, action: "A".to_string() }),
        Gesture::Hold(Hold { fingers: 4, action: "C".to_string() }),
        Gesture::Hold(Hold { fingers: 3, action: "B".to_string() }),
    ];
    let mut h = EventHandler::new(config);
    assert!(h.handle_event(TouchEvent::Hold(HoldEvent::Begin { fingers: 3 })).is_empty());
    let r = h.handle_event(TouchEvent::Hold(HoldEvent::End));
    assert_eq!(r, vec![exec("A", 0, 0, 0), exec("B", 0, 0, 0)]);
}

#[test]
fn pinch_out_runs_update_with_scale() {
    let config = vec![pinch(2, InOut::Out, None, Some("zoom-in"), None)];
    let mut h = EventHandler::new(config);
    assert!(h.handle_event(TouchEvent::Pinch(PinchEvent::Begin { fingers: 2 })).is_empty());
    let r = h.handle_event(TouchEvent::Pinch(PinchEvent::Update { scale: 2 * FIXED_ONE }));
    assert_eq!(r, vec![exec("zoom-in", 0, 0, 2 * FIXED_ONE)]);
    assert_eq!(h.event, LiveGesture::Pinch { direction: InOut::Out, fingers: 2 });
}

#[test]
fn pinch_phases_with_wildcard_and_in() {
    let config = vec![
        pinch(2, InOut::Any, Some("s"), Some("u"), Some("e")),
        pinch(2, InOut::In, Some("si"), Some("ui"), Some("ei")),
        pinch(2, InOut::Out, None, Some("uo"), None),
    ];
    let mut h = EventHandler::new(config);
    let r = h.handle_event(TouchEvent::Pinch(PinchEvent::Begin { fingers: 2 }));
    assert_eq!(r, vec![exec("s", 0, 0, 0)]);
    let r = h.handle_event(TouchEvent::Pinch(PinchEvent::Update { scale: FIXED_ONE }));
    assert_eq!(r, vec![exec("u", 0, 0, FIXED_ONE), exec("ui", 0, 0, FIXED_ONE)]);
    let r = h.handle_event(TouchEvent::Pinch(PinchEvent::End));
    assert_eq!(r, vec![exec("e", 0, 0, 0), exec("ei", 0, 0, 0)]);
}

#[test]
fn pinch_absent_template_is_empty() {
    let config = vec![pinch(2, InOut::Any, None, None, None)];
    let mut h = EventHandler::new(config);
    let r = h.handle_event(TouchEvent::Pinch(PinchEvent::Begin { fingers: 2 }));
    assert_eq!(r, vec![exec("", 0, 0, 0)]);
}

#[test]
fn wildcard_swipe_begin_presses_button() {
    let config = vec![Gesture::Swipe(Swipe::new(Direction::Any, 3))];
    let mut h = EventHandler::new(config);
    let r = h.handle_event(TouchEvent::Swipe(SwipeEvent::Begin { fingers: 3 }));
    assert_eq!(r, vec![Action::MouseDown { button: 1 }]);
}

#[test]
fn wildcard_swipe_end_releases_after_delay() {
    let config = vec![Gesture::Swipe(Swipe::new(Direction::Any, 3))];
    let mut h = EventHandler::new(config);
    h.handle_event(TouchEvent::Swipe(SwipeEvent::Begin { fingers: 3 }));
    let r = h.handle_event(TouchEvent::Swipe(SwipeEvent::End { cancelled: false }));
    assert_eq!(r, vec![Action::MouseUpDelay { button: 1, delay_ms: 900 }]);
}

#[test]
fn cancelled_swipe_end_fires_nothing() {
    let mut right = Swipe::new(Direction::E, 3);
    right.end = Some("right".to_string());
    let config = vec![Gesture::Swipe(Swipe::new(Direction::Any, 3)), Gesture::Swipe(right)];
    let mut h = EventHandler::new(config);
    h.handle_event(TouchEvent::Swipe(SwipeEvent::Begin { fingers: 3 }));
    h.handle_event(TouchEvent::Swipe(SwipeEvent::Update { dx: 10, dy: 0 }));
    let r = h.handle_event(TouchEvent::Swipe(SwipeEvent::End { cancelled: true }));
    assert!(r.is_empty());
}

#[test]
fn swipe_update_drags_and_runs_directional() {
    let mut right = Swipe::new(Direction::E, 3);
    right.update = Some("upd".to_string());
    right.end = Some("fin".to_string());
    let config = vec![
        Gesture::Swipe(Swipe::new(Direction::Any, 3)),
        Gesture::Swipe(right),
        Gesture::Swipe(Swipe::new(Direction::Any, 4)),
    ];
    let mut h = EventHandler::new(config);
    h.handle_event(TouchEvent::Swipe(SwipeEvent::Begin { fingers: 3 }));
    let r = h.handle_event(TouchEvent::Swipe(SwipeEvent::Update { dx: 10 * FIXED_ONE, dy: -FIXED_ONE }));
    assert_eq!(
        r,
        vec![
            Action::MoveRelative { dx: 15, dy: -1 },
            exec("upd", 10 * FIXED_ONE, -FIXED_ONE, 0),
        ]
    );
    assert_eq!(h.event, LiveGesture::Swipe { direction: Direction::E, fingers: 3 });
    let r = h.handle_event(TouchEvent::Swipe(SwipeEvent::End { cancelled: false }));
    assert_eq!(r, vec![Action::MouseUpDelay { button: 1, delay_ms: 900 }, exec("fin", 0, 0, 0)]);
}

#[test]
fn pointer_move_truncates_and_saturates() {
    let mut drag = Swipe::new(Direction::Any, 3);
    drag.acceleration = 2 * FIXED_ONE;
    let mut h = EventHandler::new(vec![Gesture::Swipe(drag)]);
    h.handle_event(TouchEvent::Swipe(SwipeEvent::Begin { fingers: 3 }));
    let r = h.handle_event(TouchEvent::Swipe(SwipeEvent::Update { dx: -1_700_000, dy: i64::MAX }));
    assert_eq!(r, vec![Action::MoveRelative { dx: -3, dy: i32::MAX }]);
}

#[test]
fn update_without_begin_is_ignored() {
    let config = vec![Gesture::Swipe(Swipe::new(Direction::Any, 3))];
    let mut h = EventHandler::new(config);
    let r = h.handle_event(TouchEvent::Swipe(SwipeEvent::Update { dx: 5, dy: 5 }));
    assert!(r.is_empty());
    assert_eq!(h.event, LiveGesture::Idle);
    let r = h.handle_event(TouchEvent::Other);
    assert!(r.is_empty());
}

#[test]
fn begin_overwrites_live_gesture() {
    let config = vec![Gesture::Hold(Hold { fingers: 3, action: "A".to_string() })];
    let mut h = EventHandler::new(config);
    h.handle_event(TouchEvent::Hold(HoldEvent::Begin { fingers: 3 }));
    h.handle_event(TouchEvent::Pinch(PinchEvent::Begin { fingers: 3 }));
    assert_eq!(h.event, LiveGesture::Pinch { direction: InOut::Any, fingers: 3 });
    assert!(h.handle_event(TouchEvent::Hold(HoldEvent::End)).is_empty());
}

#[test]
fn open_access_follows_flags() {
    let ro = open_access(0);
    assert!(ro.read && !ro.write);
    let wo = open_access(libc::O_WRONLY);
    assert!(wo.read && wo.write);
    let rw = open_access(libc::O_RDWR | libc::O_NONBLOCK);
    assert!(rw.read && rw.write);
    let other = open_access(libc::O_NONBLOCK);
    assert!(other.read && !other.write);
}
