//! Which mouse buttons are held down, and how Flutter sees them.
use vstd::prelude::*;
use std::collections::HashSet;
use crate::embedder::{
    FLUTTER_POINTER_BUTTON_MOUSE_BACK, FLUTTER_POINTER_BUTTON_MOUSE_FORWARD, FLUTTER_POINTER_BUTTON_MOUSE_MIDDLE,
    FLUTTER_POINTER_BUTTON_MOUSE_PRIMARY, FLUTTER_POINTER_BUTTON_MOUSE_SECONDARY,
};

verus! {

broadcast use vstd::std_specs::hash::group_hash_axioms;

/// Linux input event code of the left mouse button (`BTN_LEFT`).
pub const BTN_LEFT: u16 = 0x110;
/// Linux input event code of the right mouse button (`BTN_RIGHT`).
pub const BTN_RIGHT: u16 = 0x111;
/// Linux input event code of the middle mouse button (`BTN_MIDDLE`).
pub const BTN_MIDDLE: u16 = 0x112;
/// Linux input event code of the forward mouse button (`BTN_FORWARD`).
pub const BTN_FORWARD: u16 = 0x115;
/// Linux input event code of the back mouse button (`BTN_BACK`).
pub const BTN_BACK: u16 = 0x116;
/// Number of Linux key codes (`KEY_CNT`); the valid codes are those below it.
pub const KEY_CNT: u16 = 0x300;

#[verifier::external_type_specification]
#[verifier::external_body]
pub struct ExRangeError(input_linux::RangeError);

/// `input_linux::Key::from_code`: it accepts exactly the codes below
/// `Key::COUNT` (`KEY_CNT`) and gives back the key whose code is the one asked
/// for; the key is handed back here as its code.
#[verifier::external_body]
fn key_from_code(code: u16) -> (r: Result<u16, input_linux::RangeError>)
    ensures
        r is Ok <==> code < KEY_CNT,
        r matches Ok(c) ==> c == code,
{
    match input_linux::Key::from_code(code) {
        Ok(key) => Ok(key.code()),
        Err(err) => Err(err),
    }
}

/// A button code that names no Linux key.
#[derive(Debug, Clone, Copy, PartialEq, Eq)]
pub struct KeyRangeError {
    pub code: u16,
}

/// The Flutter button bit of a held Linux button, 0 for the others.
pub open spec fn flutter_bit(down: Set<u16>, code: u16, bit: u32) -> int {
    if down.contains(code) { bit as int } else { 0 }
}

/// The Flutter button mask of a set of held Linux buttons.
pub open spec fn button_bitmask(down: Set<u16>) -> int {
    flutter_bit(down, BTN_LEFT, FLUTTER_POINTER_BUTTON_MOUSE_PRIMARY)
        + flutter_bit(down, BTN_RIGHT, FLUTTER_POINTER_BUTTON_MOUSE_SECONDARY)
        + flutter_bit(down, BTN_MIDDLE, FLUTTER_POINTER_BUTTON_MOUSE_MIDDLE)
        + flutter_bit(down, BTN_BACK, FLUTTER_POINTER_BUTTON_MOUSE_BACK)
        + flutter_bit(down, BTN_FORWARD, FLUTTER_POINTER_BUTTON_MOUSE_FORWARD)
}

/// The Linux button that a Flutter mouse button bit stands for.
pub open spec fn spec_flutter_to_linux(button: u32) -> Option<u16> {
    if button == FLUTTER_POINTER_BUTTON_MOUSE_PRIMARY {
        Some(BTN_LEFT)
    } else if button == FLUTTER_POINTER_BUTTON_MOUSE_SECONDARY {
        Some(BTN_RIGHT)
    } else if button == FLUTTER_POINTER_BUTTON_MOUSE_MIDDLE {
        Some(BTN_MIDDLE)
    } else if button == FLUTTER_POINTER_BUTTON_MOUSE_BACK {
        Some(BTN_BACK)
    } else if button == FLUTTER_POINTER_BUTTON_MOUSE_FORWARD {
        Some(BTN_FORWARD)
    } else {
        None
    }
}

/// The Linux button code of a Flutter mouse button bit, `None` for a value
/// that is not one of the five button bits.
pub fn flutter_to_linux_mouse_button(button: u32) -> (r: Option<u16>)
    ensures
        r == spec_flutter_to_linux(button),
{
    if button == FLUTTER_POINTER_BUTTON_MOUSE_PRIMARY {
        Some(BTN_LEFT)
    } else if button == FLUTTER_POINTER_BUTTON_MOUSE_SECONDARY {
        Some(BTN_RIGHT)
    } else if button == FLUTTER_POINTER_BUTTON_MOUSE_MIDDLE {
        Some(BTN_MIDDLE)
    } else if button == FLUTTER_POINTER_BUTTON_MOUSE_BACK {
        Some(BTN_BACK)
    } else if button == FLUTTER_POINTER_BUTTON_MOUSE_FORWARD {
        Some(BTN_FORWARD)
    } else {
        None
    }
}

/// The set of mouse buttons held down, by Linux button code.
pub struct MouseButtonTracker {
    down: HashSet<u16>,
}

impl View for MouseButtonTracker {
    type V = Set<u16>;

    closed spec fn view(&self) -> Set<u16> {
        self.down@
    }
}

impl MouseButtonTracker {
    /// A tracker with no button held.
    pub fn new() -> (r: Self)
        ensures
            r@ == Set::<u16>::empty(),
    {
        MouseButtonTracker { down: HashSet::new() }
    }

    pub fn is_down(&self, button: u16) -> (r: bool)
        ensures
            r == self@.contains(button),
    {
        self.down.contains(&button)
    }

    pub fn are_any_buttons_pressed(&self) -> (r: bool)
        ensures
            r == !self@.is_empty(),
    {
        !self.down.is_empty()
    }

    /// Records that a button went down; a code that names no key is refused
    /// and changes nothing.
    pub fn press(&mut self, button_code: u16) -> (r: Result<(), KeyRangeError>)
        ensures
            r is Ok <==> button_code < KEY_CNT,
            r is Ok ==> final(self)@ == old(self)@.insert(button_code),
            r is Err ==> final(self)@ == old(self)@ && r == Err::<(), _>(KeyRangeError { code: button_code }),
    {
        match key_from_code(button_code) {
            Ok(key) => {
                self.down.insert(key);
                Ok(())
            },
            Err(_) => Err(KeyRangeError { code: button_code }),
        }
    }

    /// Records that a button went up; a code that names no key is refused
    /// and changes nothing.
    pub fn release(&mut self, button_code: u16) -> (r: Result<(), KeyRangeError>)
        ensures
            r is Ok <==> button_code < KEY_CNT,
            r is Ok ==> final(self)@ == old(self)@.remove(button_code),
            r is Err ==> final(self)@ == old(self)@ && r == Err::<(), _>(KeyRangeError { code: button_code }),
    {
        match key_from_code(button_code) {
            Ok(key) => {
                self.down.remove(&key);
                Ok(())
            },
            Err(_) => Err(KeyRangeError { code: button_code }),
        }
    }

    /// The Flutter mask of the held buttons: one bit per held left, right,
    /// middle, back and forward button.
    pub fn get_flutter_button_bitmask(&self) -> (r: i64)
        ensures
            r == button_bitmask(self@),
            0 <= r < 32,
    {
        let mut flutter_mouse_buttons: u32 = 0;
        if self.is_down(BTN_LEFT) {
            assert(0u32 | 1u32 == 1u32) by (bit_vector);
            flutter_mouse_buttons = flutter_mouse_buttons | FLUTTER_POINTER_BUTTON_MOUSE_PRIMARY;
        }
        assert(flutter_mouse_buttons == flutter_bit(self@, BTN_LEFT, 1));
        let m1 = flutter_mouse_buttons;
        if self.is_down(BTN_RIGHT) {
            assert(m1 < 2 ==> m1 | 2 == m1 + 2) by (bit_vector);
            flutter_mouse_buttons = flutter_mouse_buttons | FLUTTER_POINTER_BUTTON_MOUSE_SECONDARY;
        }
        let m2 = flutter_mouse_buttons;
        if self.is_down(BTN_MIDDLE) {
            assert(m2 < 4 ==> m2 | 4 == m2 + 4) by (bit_vector);
            flutter_mouse_buttons = flutter_mouse_buttons | FLUTTER_POINTER_BUTTON_MOUSE_MIDDLE;
        }
        let m3 = flutter_mouse_buttons;
        if self.is_down(BTN_BACK) {
            assert(m3 < 8 ==> m3 | 8 == m3 + 8) by (bit_vector);
            flutter_mouse_buttons = flutter_mouse_buttons | FLUTTER_POINTER_BUTTON_MOUSE_BACK;
        }
        let m4 = flutter_mouse_buttons;
        if self.is_down(BTN_FORWARD) {
            assert(m4 < 16 ==> m4 | 16 == m4 + 16) by (bit_vector);
            flutter_mouse_buttons = flutter_mouse_buttons | FLUTTER_POINTER_BUTTON_MOUSE_FORWARD;
        }
        flutter_mouse_buttons as i64
    }
}

impl Default for MouseButtonTracker {
    /// A tracker with no button held.
    fn default() -> (r: Self)
        ensures
            r@ == Set::<u16>::empty(),
    {
        MouseButtonTracker::new()
    }
}

/// Pressing a button that was up and releasing it again leaves the set of
/// held buttons as it was.
pub proof fn lemma_press_then_release_restores(down: Set<u16>, code: u16)
    requires
        !down.contains(code),
    ensures
        down.insert(code).remove(code) == down,
{
    assert(down.insert(code).remove(code) =~= down);
}

/// The bitmask that Flutter receives and the mapping of Flutter buttons to
/// Linux buttons agree: a Flutter button's bit is set exactly when the
/// Linux button it maps to is held.
pub proof fn lemma_bitmask_matches_linux_buttons(down: Set<u16>, bit: u32)
    requires
        spec_flutter_to_linux(bit) is Some,
    ensures
        (button_bitmask(down) / (bit as int)) % 2 == 1 <==> down.contains(spec_flutter_to_linux(bit)->Some_0),
        0 <= button_bitmask(down) < 32,
{
    let a = flutter_bit(down, BTN_LEFT, FLUTTER_POINTER_BUTTON_MOUSE_PRIMARY);
    let b = flutter_bit(down, BTN_RIGHT, FLUTTER_POINTER_BUTTON_MOUSE_SECONDARY);
    let c = flutter_bit(down, BTN_MIDDLE, FLUTTER_POINTER_BUTTON_MOUSE_MIDDLE);
    let d = flutter_bit(down, BTN_BACK, FLUTTER_POINTER_BUTTON_MOUSE_BACK);
    let e = flutter_bit(down, BTN_FORWARD, FLUTTER_POINTER_BUTTON_MOUSE_FORWARD);
    lemma_five_bits(a, b, c, d, e);
}

proof fn lemma_five_bits(a: int, b: int, c: int, d: int, e: int)
    requires
        a == 0 || a == 1,
        b == 0 || b == 2,
        c == 0 || c == 4,
        d == 0 || d == 8,
        e == 0 || e == 16,
    ensures
        ((a + b + c + d + e) / 1) % 2 == 1 <==> a == 1,
        ((a + b + c + d + e) / 2) % 2 == 1 <==> b == 2,
        ((a + b + c + d + e) / 4) % 2 == 1 <==> c == 4,
        ((a + b + c + d + e) / 8) % 2 == 1 <==> d == 8,
        ((a + b + c + d + e) / 16) % 2 == 1 <==> e == 16,
{
}

} // verus!
