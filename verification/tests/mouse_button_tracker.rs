use wayvern::mouse_button_tracker::{
    flutter_to_linux_mouse_button, KeyRangeError, MouseButtonTracker, BTN_BACK, BTN_FORWARD, BTN_LEFT,
    BTN_MIDDLE, BTN_RIGHT,
};

#[test]
fn new_tracker_has_nothing_down() {
    let tracker = MouseButtonTracker::new();
    assert!(!tracker.are_any_buttons_pressed());
    assert!(!tracker.is_down(BTN_LEFT));
    assert_eq!(tracker.get_flutter_button_bitmask(), 0);
}

#[test]
fn press_and_release() {
    let mut tracker = MouseButtonTracker::new();
    assert_eq!(tracker.press(BTN_LEFT), Ok(()));
    assert!(tracker.is_down(BTN_LEFT));
    assert!(tracker.are_any_buttons_pressed());
    assert_eq!(tracker.release(BTN_LEFT), Ok(()));
    assert!(!tracker.is_down(BTN_LEFT));
    assert!(!tracker.are_any_buttons_pressed());
}

#[test]
fn out_of_range_code_is_refused() {
    let mut tracker = MouseButtonTracker::new();
    assert_eq!(tracker.press(0x300), Err(KeyRangeError { code: 0x300 }));
    assert_eq!(tracker.release(0xffff), Err(KeyRangeError { code: 0xffff }));
    assert!(!tracker.are_any_buttons_pressed());
    assert_eq!(tracker.press(0x2ff), Ok(()));
    assert!(tracker.is_down(0x2ff));
}

#[test]
fn bitmask_of_each_button() {
    let cases = [(BTN_LEFT, 1), (BTN_RIGHT, 2), (BTN_MIDDLE, 4), (BTN_BACK, 8), (BTN_FORWARD, 16)];
    for (code, bit) in cases {
        let mut tracker = MouseButtonTracker::new();
        tracker.press(code).unwrap();
        assert_eq!(tracker.get_flutter_button_bitmask(), bit);
        assert_eq!(flutter_to_linux_mouse_button(bit as u32), Some(code));
    }
}

#[test]
fn bitmask_of_several_buttons() {
    let mut tracker = MouseButtonTracker::new();
    tracker.press(BTN_LEFT).unwrap();
    tracker.press(BTN_MIDDLE).unwrap();
    tracker.press(BTN_FORWARD).unwrap();
    tracker.press(0x100).unwrap();
    assert_eq!(tracker.get_flutter_button_bitmask(), 1 | 4 | 16);
    tracker.release(BTN_MIDDLE).unwrap();
    assert_eq!(tracker.get_flutter_button_bitmask(), 1 | 16);
}

#[test]
fn unknown_flutter_button_has_no_linux_code() {
    assert_eq!(flutter_to_linux_mouse_button(0), None);
    assert_eq!(flutter_to_linux_mouse_button(3), None);
    assert_eq!(flutter_to_linux_mouse_button(32), None);
}

#[test]
fn press_twice_release_once() {
    let mut tracker = MouseButtonTracker::new();
    tracker.press(BTN_RIGHT).unwrap();
    tracker.press(BTN_RIGHT).unwrap();
    tracker.release(BTN_RIGHT).unwrap();
    assert!(!tracker.is_down(BTN_RIGHT));
}

#[test]
fn default_tracker_has_nothing_down() {
    let tracker = MouseButtonTracker::default();
    assert!(!tracker.are_any_buttons_pressed());
    assert_eq!(tracker.get_flutter_button_bitmask(), 0);
}
