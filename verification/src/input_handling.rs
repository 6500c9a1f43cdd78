//! The decisions that the compositor takes on input events: which pointer
//! event Flutter receives, and where a key event goes.
use vstd::prelude::*;
use crate::embedder::{
    FLUTTER_POINTER_PHASE_DOWN, FLUTTER_POINTER_PHASE_HOVER, FLUTTER_POINTER_PHASE_MOVE,
    FLUTTER_POINTER_PHASE_UP, FLUTTER_POINTER_SIGNAL_KIND_NONE, FLUTTER_POINTER_SIGNAL_KIND_SCROLL,
};
use crate::mouse_button_tracker::{button_bitmask, MouseButtonTracker};

verus! {

/// Linux key code of the Escape key (`KEY_ESC`).
pub const KEY_ESC: u32 = 1;

/// The raw (XKB) key code on whose press the compositor stops without
/// telling Flutter.
pub const STOP_KEYCODE: u32 = 9;

/// The part of a Flutter pointer event that the compositor decides: its
/// phase, its signal kind and the held buttons.
#[derive(Debug, Clone, Copy, PartialEq, Eq)]
pub struct PointerUpdate {
    pub phase: u32,
    pub signal_kind: u32,
    pub buttons: i64,
}

/// The pointer event sent for a button that went down or up. The tracker
/// records the change first (a code that names no key is ignored); the
/// phase is Down for the first button pressed, Up when the last one is
/// released, Move otherwise.
pub fn pointer_button_update(
    tracker: &mut MouseButtonTracker,
    button_code: u32,
    pressed: bool,
) -> (r: PointerUpdate)
    ensures
        pressed ==> final(tracker)@ == (if (button_code as u16) < 0x300u16 {
            old(tracker)@.insert(button_code as u16)
        } else {
            old(tracker)@
        }),
        !pressed ==> final(tracker)@ == (if (button_code as u16) < 0x300u16 {
            old(tracker)@.remove(button_code as u16)
        } else {
            old(tracker)@
        }),
        pressed ==> r.phase == (if old(tracker)@.is_empty() {
            FLUTTER_POINTER_PHASE_DOWN
        } else {
            FLUTTER_POINTER_PHASE_MOVE
        }),
        !pressed ==> r.phase == (if final(tracker)@.is_empty() {
            FLUTTER_POINTER_PHASE_UP
        } else {
            FLUTTER_POINTER_PHASE_MOVE
        }),
        r.signal_kind == FLUTTER_POINTER_SIGNAL_KIND_NONE,
        r.buttons == button_bitmask(final(tracker)@),
{
    let phase = if pressed {
        let are_any_buttons_pressed = tracker.are_any_buttons_pressed();
        let _ = tracker.press(button_code as u16);
        if are_any_buttons_pressed {
            FLUTTER_POINTER_PHASE_MOVE
        } else {
            FLUTTER_POINTER_PHASE_DOWN
        }
    } else {
        let _ = tracker.release(button_code as u16);
        if tracker.are_any_buttons_pressed() {
            FLUTTER_POINTER_PHASE_MOVE
        } else {
            FLUTTER_POINTER_PHASE_UP
        }
    };
    PointerUpdate {
        phase,
        signal_kind: FLUTTER_POINTER_SIGNAL_KIND_NONE,
        buttons: tracker.get_flutter_button_bitmask(),
    }
}

/// The pointer event sent when the pointer moves: Move while a button is
/// held, Hover otherwise.
pub fn pointer_motion_update(tracker: &MouseButtonTracker) -> (r: PointerUpdate)
    ensures
        r.phase == (if tracker@.is_empty() {
            FLUTTER_POINTER_PHASE_HOVER
        } else {
            FLUTTER_POINTER_PHASE_MOVE
        }),
        r.signal_kind == FLUTTER_POINTER_SIGNAL_KIND_NONE,
        r.buttons == button_bitmask(tracker@),
{
    PointerUpdate {
        phase: if tracker.are_any_buttons_pressed() {
            FLUTTER_POINTER_PHASE_MOVE
        } else {
            FLUTTER_POINTER_PHASE_HOVER
        },
        signal_kind: FLUTTER_POINTER_SIGNAL_KIND_NONE,
        buttons: tracker.get_flutter_button_bitmask(),
    }
}

/// The pointer event sent for a scroll: a scroll signal, in phase Move while
/// a button is held and Down otherwise.
pub fn pointer_axis_update(tracker: &MouseButtonTracker) -> (r: PointerUpdate)
    ensures
        r.phase == (if tracker@.is_empty() {
            FLUTTER_POINTER_PHASE_DOWN
        } else {
            FLUTTER_POINTER_PHASE_MOVE
        }),
        r.signal_kind == FLUTTER_POINTER_SIGNAL_KIND_SCROLL,
        r.buttons == button_bitmask(tracker@),
{
    PointerUpdate {
        phase: if tracker.are_any_buttons_pressed() {
            FLUTTER_POINTER_PHASE_MOVE
        } else {
            FLUTTER_POINTER_PHASE_DOWN
        },
        signal_kind: FLUTTER_POINTER_SIGNAL_KIND_SCROLL,
        buttons: tracker.get_flutter_button_bitmask(),
    }
}

/// Whether a key event from the input backend is a press of Escape, on
/// which the compositor stops once the event has been handled.
pub fn is_escape_press(raw_keycode: u32, pressed: bool) -> (r: bool)
    ensures
        r == (pressed && raw_keycode == KEY_ESC),
{
    pressed && raw_keycode == KEY_ESC
}

/// What the compositor does with a key event before Flutter sees it.
#[derive(Debug, Clone, Copy, PartialEq, Eq)]
pub enum KeyEventAction {
    /// Stop the compositor; the event goes nowhere.
    StopCompositor,
    /// Update the keyboard state and hand the event to Flutter.
    SendToFlutter,
}

/// A press of the stop key stops the compositor; every other event goes
/// to Flutter.
pub fn key_event_action(raw_keycode: u32, pressed: bool) -> (r: KeyEventAction)
    ensures
        r == (if pressed && raw_keycode == STOP_KEYCODE {
            KeyEventAction::StopCompositor
        } else {
            KeyEventAction::SendToFlutter
        }),
{
    assert((#[verifier::truncate] (raw_keycode as i32) == 9i32) == (raw_keycode == 9u32)) by (bit_vector);
    if pressed && #[verifier::truncate] (raw_keycode as i32) == 9 {
        KeyEventAction::StopCompositor
    } else {
        KeyEventAction::SendToFlutter
    }
}

/// Where a key event goes once Flutter has said whether it handled it.
#[derive(Debug, Clone, Copy, PartialEq, Eq)]
pub enum KeyEventRoute {
    /// Flutter consumed the event (a keyboard shortcut, say).
    ConsumedByFlutter,
    /// A text field of the compositor is active: the event stays with it.
    KeptByTextInput,
    /// The event goes to the Wayland client in focus.
    ForwardToClient,
}

/// Flutter's verdict first, then an active text field, then the client.
pub fn route_flutter_handled_key_event(handled: bool, text_input_active: bool) -> (r: KeyEventRoute)
    ensures
        r == (if handled {
            KeyEventRoute::ConsumedByFlutter
        } else if text_input_active {
            KeyEventRoute::KeptByTextInput
        } else {
            KeyEventRoute::ForwardToClient
        }),
{
    if handled {
        KeyEventRoute::ConsumedByFlutter
    } else if text_input_active {
        KeyEventRoute::KeptByTextInput
    } else {
        KeyEventRoute::ForwardToClient
    }
}

} // verus!
