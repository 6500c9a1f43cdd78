use wayvern::embedder::{
    FLUTTER_POINTER_PHASE_DOWN, FLUTTER_POINTER_PHASE_HOVER, FLUTTER_POINTER_PHASE_MOVE, FLUTTER_POINTER_PHASE_UP,
    FLUTTER_POINTER_SIGNAL_KIND_NONE, FLUTTER_POINTER_SIGNAL_KIND_SCROLL,
};
use wayvern::input_handling::{
    is_escape_press, key_event_action, pointer_axis_update, pointer_button_update, pointer_motion_update,
    route_flutter_handled_key_event, KeyEventAction, KeyEventRoute, PointerUpdate,
};
use wayvern::mouse_button_tracker::{MouseButtonTracker, BTN_LEFT, BTN_RIGHT};

#[test]
fn first_press_is_down_then_move_then_up() {
    let mut tracker = MouseButtonTracker::new();
    let u = pointer_button_update(&mut tracker, BTN_LEFT as u32, true);
    assert_eq!(u, PointerUpdate { phase: FLUTTER_POINTER_PHASE_DOWN, signal_kind: FLUTTER_POINTER_SIGNAL_KIND_NONE, buttons: 1 });
    let u = pointer_button_update(&mut tracker, BTN_RIGHT as u32, true);
    assert_eq!(u, PointerUpdate { phase: FLUTTER_POINTER_PHASE_MOVE, signal_kind: FLUTTER_POINTER_SIGNAL_KIND_NONE, buttons: 3 });
    let u = pointer_button_update(&mut tracker, BTN_LEFT as u32, false);
    assert_eq!(u, PointerUpdate { phase: FLUTTER_POINTER_PHASE_MOVE, signal_kind: FLUTTER_POINTER_SIGNAL_KIND_NONE, buttons: 2 });
    let u = pointer_button_update(&mut tracker, BTN_RIGHT as u32, false);
    assert_eq!(u, PointerUpdate { phase: FLUTTER_POINTER_PHASE_UP, signal_kind: FLUTTER_POINTER_SIGNAL_KIND_NONE, buttons: 0 });
}

#[test]
fn button_code_is_truncated_to_16_bits() {
    let mut tracker = MouseButtonTracker::new();
    pointer_button_update(&mut tracker, 0x1_0110, true);
    assert!(tracker.is_down(BTN_LEFT));
}

#[test]
fn invalid_button_press_still_reports_down() {
    let mut tracker = MouseButtonTracker::new();
    let u = pointer_button_update(&mut tracker, 0x400, true);
    assert_eq!(u.phase, FLUTTER_POINTER_PHASE_DOWN);
    assert!(!tracker.are_any_buttons_pressed());
}

#[test]
fn motion_hovers_unless_button_held() {
    let mut tracker = MouseButtonTracker::new();
    assert_eq!(pointer_motion_update(&tracker).phase, FLUTTER_POINTER_PHASE_HOVER);
    tracker.press(BTN_LEFT).unwrap();
    let u = pointer_motion_update(&tracker);
    assert_eq!(u.phase, FLUTTER_POINTER_PHASE_MOVE);
    assert_eq!(u.buttons, 1);
}

#[test]
fn scroll_is_down_unless_button_held() {
    let mut tracker = MouseButtonTracker::new();
    let u = pointer_axis_update(&tracker);
    assert_eq!(u, PointerUpdate { phase: FLUTTER_POINTER_PHASE_DOWN, signal_kind: FLUTTER_POINTER_SIGNAL_KIND_SCROLL, buttons: 0 });
    tracker.press(BTN_RIGHT).unwrap();
    let u = pointer_axis_update(&tracker);
    assert_eq!(u, PointerUpdate { phase: FLUTTER_POINTER_PHASE_MOVE, signal_kind: FLUTTER_POINTER_SIGNAL_KIND_SCROLL, buttons: 2 });
}

#[test]
fn escape_press() {
    assert!(is_escape_press(1, true));
    assert!(!is_escape_press(1, false));
    assert!(!is_escape_press(9, true));
}

#[test]
fn stop_key() {
    assert_eq!(key_event_action(9, true), KeyEventAction::StopCompositor);
    assert_eq!(key_event_action(9, false), KeyEventAction::SendToFlutter);
    assert_eq!(key_event_action(10, true), KeyEventAction::SendToFlutter);
    assert_eq!(key_event_action(9 + (1 << 31), true), KeyEventAction::SendToFlutter);
}

#[test]
fn handled_key_event_routes() {
    assert_eq!(route_flutter_handled_key_event(true, true), KeyEventRoute::ConsumedByFlutter);
    assert_eq!(route_flutter_handled_key_event(true, false), KeyEventRoute::ConsumedByFlutter);
    assert_eq!(route_flutter_handled_key_event(false, true), KeyEventRoute::KeptByTextInput);
    assert_eq!(route_flutter_handled_key_event(false, false), KeyEventRoute::ForwardToClient);
}
