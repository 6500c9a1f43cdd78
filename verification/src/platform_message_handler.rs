//! Reading the method calls that Flutter sends on the "platform" channel.
use vstd::prelude::*;
use crate::encodable_value::{str_eq, EncodableValue};
use crate::mouse_button_tracker::{flutter_to_linux_mouse_button, spec_flutter_to_linux};

verus! {

/// The entry's key is the string `key`.
pub open spec fn key_matches(entry: (EncodableValue, EncodableValue), key: Seq<char>) -> bool {
    entry.0 matches EncodableValue::String(k) && k@ == key
}

/// The value of the first entry of a map value whose key is the string
/// `key`; `None` when there is no such entry or the value is not a map.
pub open spec fn spec_lookup(map: EncodableValue, key: Seq<char>) -> Option<EncodableValue> {
    match map {
        EncodableValue::Mapping(entries) => if exists|i: int|
            0 <= i < entries@.len() && key_matches(#[trigger] entries@[i], key) {
            let i = choose|i: int|
                0 <= i < entries@.len() && key_matches(#[trigger] entries@[i], key) && forall|j: int|
                    0 <= j < i ==> !key_matches(#[trigger] entries@[j], key);
            Some(entries@[i].1)
        } else {
            None
        },
        _ => None,
    }
}

/// The first entry of `entries` whose key is `key` is the one at `i`.
pub open spec fn is_first_match(entries: Seq<(EncodableValue, EncodableValue)>, key: Seq<char>, i: int) -> bool {
    &&& 0 <= i < entries.len()
    &&& key_matches(entries[i], key)
    &&& forall|j: int| 0 <= j < i ==> !key_matches(#[trigger] entries[j], key)
}

/// The value of the first entry whose key is the string `key`; `None` when
/// there is none, or `map` is not a map.
#[verifier::loop_isolation(false)]
pub fn find_value<'a>(map: &'a EncodableValue, key: &str) -> (r: Option<&'a EncodableValue>)
    ensures
        r matches Some(v) ==> map matches EncodableValue::Mapping(entries) && exists|i: int|
            is_first_match(entries@, key@, i) && *v == entries@[i].1,
        r is None ==> !(map matches EncodableValue::Mapping(entries) && exists|i: int|
            0 <= i < entries@.len() && key_matches(#[trigger] entries@[i], key@)),
        r matches Some(v) ==> spec_lookup(*map, key@) == Some(*v),
        r is None ==> spec_lookup(*map, key@) is None,
{
    match map {
        EncodableValue::Mapping(entries) => {
            let mut i: usize = 0;
            while i < entries.len()
                invariant
                    0 <= i <= entries@.len(),
                    forall|j: int| 0 <= j < i ==> !key_matches(#[trigger] entries@[j], key@),
                decreases entries@.len() - i,
            {
                let matched = match &entries[i].0 {
                    EncodableValue::String(k) => str_eq(k.as_str(), key),
                    _ => false,
                };
                if matched {
                    proof {
                        assert(is_first_match(entries@, key@, i as int));
                        let c = choose|c: int|
                            0 <= c < entries@.len() && key_matches(#[trigger] entries@[c], key@)
                                && forall|j: int| 0 <= j < c ==> !key_matches(#[trigger] entries@[j], key@);
                        if c < i {
                        } else if c > i {
                            assert(!key_matches(entries@[i as int], key@));
                        }
                    }
                    return Some(&entries[i].1);
                }
                i = i + 1;
            }
            None
        },
        _ => None,
    }
}

/// The value of the first entry whose key is the string `key`, in a map that
/// has one.
pub fn get_value<'a>(map: &'a EncodableValue, key: &str) -> (r: &'a EncodableValue)
    requires
        spec_lookup(*map, key@) is Some,
    ensures
        spec_lookup(*map, key@) == Some(*r),
{
    match find_value(map, key) {
        Some(v) => v,
        None => {
            proof {
                assert(false);
            }
            map
        },
    }
}

/// The integer of a value that may be missing.
pub open spec fn spec_long(v: Option<EncodableValue>) -> Option<i64> {
    match v {
        Some(x) => x.spec_long_value(),
        None => None,
    }
}

/// The double (as its bits) of a value that may be missing.
pub open spec fn spec_double(v: Option<EncodableValue>) -> Option<u64> {
    match v {
        Some(EncodableValue::Double(d)) => Some(d),
        _ => None,
    }
}

/// The boolean of a value that may be missing.
pub open spec fn spec_bool(v: Option<EncodableValue>) -> Option<bool> {
    match v {
        Some(EncodableValue::Bool(b)) => Some(b),
        _ => None,
    }
}

/// A method call of the "platform" channel, with its arguments read.
#[derive(Debug, Clone, Copy, PartialEq, Eq)]
pub enum PlatformRequest {
    /// The pointer is over a view; the position is held as the bits of two doubles.
    PointerHover { view_id: u64, x: u64, y: u64 },
    /// The pointer left all views.
    PointerExit,
    /// A mouse button, by Linux button code, went down or up.
    MouseButtonEvent { button: u32, is_pressed: bool },
    /// A window is to be activated or deactivated.
    ActivateWindow { view_id: u64, activate: bool },
    /// A window is to take a new size.
    ResizeWindow { view_id: u64, width: i32, height: i32 },
    /// A view's texture is no longer shown.
    UnregisterViewTexture { texture_id: i64 },
    /// Any other method: answered with success and nothing else.
    Other,
}

/// The request that a method call stands for, `None` when its arguments
/// are missing or malformed.
pub open spec fn spec_parse(method: Seq<char>, args: Option<EncodableValue>) -> Option<PlatformRequest> {
    if method == "pointer_hover"@ {
        match args {
            Some(a) => match (
                spec_long(spec_lookup(a, "view_id"@)),
                spec_double(spec_lookup(a, "x"@)),
                spec_double(spec_lookup(a, "y"@)),
            ) {
                (Some(view_id), Some(x), Some(y)) => Some(
                    PlatformRequest::PointerHover { view_id: view_id as u64, x, y },
                ),
                _ => None,
            },
            None => None,
        }
    } else if method == "pointer_exit"@ {
        Some(PlatformRequest::PointerExit)
    } else if method == "mouse_button_event"@ {
        match args {
            Some(a) => match (spec_long(spec_lookup(a, "button"@)), spec_bool(spec_lookup(a, "is_pressed"@))) {
                (Some(button), Some(is_pressed)) => match spec_flutter_to_linux(button as u32) {
                    Some(linux) => Some(PlatformRequest::MouseButtonEvent { button: linux as u32, is_pressed }),
                    None => None,
                },
                _ => None,
            },
            None => None,
        }
    } else if method == "activate_window"@ {
        match args {
            Some(EncodableValue::List(l)) => if l@.len() >= 2 {
                match (l@[0].spec_long_value(), l@[1]) {
                    (Some(view_id), EncodableValue::Bool(activate)) => Some(
                        PlatformRequest::ActivateWindow { view_id: view_id as u64, activate },
                    ),
                    _ => None,
                }
            } else {
                None
            },
            _ => None,
        }
    } else if method == "resize_window"@ {
        match args {
            Some(a) => match (
                spec_long(spec_lookup(a, "view_id"@)),
                spec_long(spec_lookup(a, "width"@)),
                spec_long(spec_lookup(a, "height"@)),
            ) {
                (Some(view_id), Some(width), Some(height)) => Some(
                    PlatformRequest::ResizeWindow {
                        view_id: view_id as u64,
                        width: width as i32,
                        height: height as i32,
                    },
                ),
                _ => None,
            },
            None => None,
        }
    } else if method == "unregister_view_texture"@ {
        match args {
            Some(a) => match spec_long(spec_lookup(a, "texture_id"@)) {
                Some(texture_id) => Some(PlatformRequest::UnregisterViewTexture { texture_id }),
                None => None,
            },
            None => None,
        }
    } else {
        Some(PlatformRequest::Other)
    }
}

/// A mouse button event carries the press state that Flutter sent: for a
/// known button, `is_pressed: b` is read as a press exactly when `b` is
/// true (and as a release when it is false), and the button as the Linux
/// button that the Flutter button stands for.
pub proof fn lemma_mouse_button_event_keeps_press_state(args: EncodableValue, button: i64, b: bool)
    requires
        spec_long(spec_lookup(args, "button"@)) == Some(button),
        spec_lookup(args, "is_pressed"@) == Some(EncodableValue::Bool(b)),
        spec_flutter_to_linux(button as u32) is Some,
    ensures
        spec_parse("mouse_button_event"@, Some(args)) matches Some(PlatformRequest::MouseButtonEvent {
            button: linux,
            is_pressed,
        }) && is_pressed == b && linux == spec_flutter_to_linux(button as u32)->Some_0 as u32,
{
    reveal_strlit("mouse_button_event");
    reveal_strlit("pointer_hover");
    reveal_strlit("pointer_exit");
    assert("mouse_button_event"@.len() == 18);
    assert("pointer_hover"@.len() == 13);
    assert("pointer_exit"@.len() == 12);
    let r = spec_parse("mouse_button_event"@, Some(args));
    assert(r == Some(PlatformRequest::MouseButtonEvent {
        button: spec_flutter_to_linux(button as u32)->Some_0 as u32,
        is_pressed: b,
    }));
}

fn long_at(map: &EncodableValue, key: &str) -> (r: Option<i64>)
    ensures
        r == spec_long(spec_lookup(*map, key@)),
{
    match find_value(map, key) {
        Some(v) => v.long_value(),
        None => None,
    }
}

fn double_at(map: &EncodableValue, key: &str) -> (r: Option<u64>)
    ensures
        r == spec_double(spec_lookup(*map, key@)),
{
    match find_value(map, key) {
        Some(EncodableValue::Double(d)) => Some(*d),
        _ => None,
    }
}

fn bool_at(map: &EncodableValue, key: &str) -> (r: Option<bool>)
    ensures
        r == spec_bool(spec_lookup(*map, key@)),
{
    match find_value(map, key) {
        Some(EncodableValue::Bool(b)) => Some(*b),
        _ => None,
    }
}

/// Reads a method call of the "platform" channel. `None` stands for the
/// calls that the compositor cannot read (a missing or mistyped argument,
/// an unknown mouse button); the compositor gives up on those.
pub fn parse_platform_message(method: &str, arguments: Option<&EncodableValue>) -> (r: Option<PlatformRequest>)
    ensures
        r == spec_parse(method@, match arguments { Some(a) => Some(*a), None => None }),
{
    if str_eq(method, "pointer_hover") {
        let args = match arguments {
            Some(a) => a,
            None => return None,
        };
        let view_id = long_at(args, "view_id");
        let x = double_at(args, "x");
        let y = double_at(args, "y");
        match (view_id, x, y) {
            (Some(view_id), Some(x), Some(y)) => Some(PlatformRequest::PointerHover { view_id: view_id as u64, x, y }),
            _ => None,
        }
    } else if str_eq(method, "pointer_exit") {
        Some(PlatformRequest::PointerExit)
    } else if str_eq(method, "mouse_button_event") {
        let args = match arguments {
            Some(a) => a,
            None => return None,
        };
        let button = long_at(args, "button");
        let is_pressed = bool_at(args, "is_pressed");
        match (button, is_pressed) {
            (Some(button), Some(is_pressed)) => match flutter_to_linux_mouse_button(button as u32) {
                Some(linux) => Some(PlatformRequest::MouseButtonEvent { button: linux as u32, is_pressed }),
                None => None,
            },
            _ => None,
        }
    } else if str_eq(method, "activate_window") {
        match arguments {
            Some(EncodableValue::List(l)) => {
                if l.len() >= 2 {
                    match (l[0].long_value(), &l[1]) {
                        (Some(view_id), EncodableValue::Bool(activate)) => Some(
                            PlatformRequest::ActivateWindow { view_id: view_id as u64, activate: *activate },
                        ),
                        _ => None,
                    }
                } else {
                    None
                }
            },
            _ => None,
        }
    } else if str_eq(method, "resize_window") {
        let args = match arguments {
            Some(a) => a,
            None => return None,
        };
        let view_id = long_at(args, "view_id");
        let width = long_at(args, "width");
        let height = long_at(args, "height");
        match (view_id, width, height) {
            (Some(view_id), Some(width), Some(height)) => Some(
                PlatformRequest::ResizeWindow {
                    view_id: view_id as u64,
                    width: width as i32,
                    height: height as i32,
                },
            ),
            _ => None,
        }
    } else if str_eq(method, "unregister_view_texture") {
        let args = match arguments {
            Some(a) => a,
            None => return None,
        };
        match long_at(args, "texture_id") {
            Some(texture_id) => Some(PlatformRequest::UnregisterViewTexture { texture_id }),
            None => None,
        }
    } else {
        Some(PlatformRequest::Other)
    }
}

} // verus!
