use wayvern::encodable_value::EncodableValue;
use wayvern::platform_message_handler::{find_value, get_value, parse_platform_message, PlatformRequest};

fn s(v: &str) -> EncodableValue {
    EncodableValue::String(v.to_string())
}

fn map(entries: Vec<(&str, EncodableValue)>) -> EncodableValue {
    EncodableValue::Mapping(entries.into_iter().map(|(k, v)| (s(k), v)).collect())
}

#[test]
fn get_value_finds_first_string_key() {
    let m = EncodableValue::Mapping(vec![
        (EncodableValue::Int64(1), EncodableValue::Int32(10)),
        (s("a"), EncodableValue::Int32(1)),
        (s("b"), EncodableValue::Int32(2)),
        (s("a"), EncodableValue::Int32(3)),
    ]);
    assert_eq!(get_value(&m, "a"), &EncodableValue::Int32(1));
    assert_eq!(get_value(&m, "b"), &EncodableValue::Int32(2));
    assert_eq!(find_value(&m, "c"), None);
    assert_eq!(find_value(&EncodableValue::Null, "a"), None);
}

#[test]
fn long_value_of_ints_only() {
    assert_eq!(EncodableValue::Int32(-5).long_value(), Some(-5));
    assert_eq!(EncodableValue::Int64(1 << 40).long_value(), Some(1 << 40));
    assert_eq!(EncodableValue::Bool(true).long_value(), None);
}

#[test]
fn pointer_hover() {
    let x = 1.5f64.to_bits();
    let y = (-2.25f64).to_bits();
    let args = map(vec![
        ("view_id", EncodableValue::Int32(3)),
        ("x", EncodableValue::Double(x)),
        ("y", EncodableValue::Double(y)),
    ]);
    assert_eq!(
        parse_platform_message("pointer_hover", Some(&args)),
        Some(PlatformRequest::PointerHover { view_id: 3, x, y })
    );
    let bad = map(vec![("view_id", EncodableValue::Int32(3)), ("x", EncodableValue::Int32(1))]);
    assert_eq!(parse_platform_message("pointer_hover", Some(&bad)), None);
    assert_eq!(parse_platform_message("pointer_hover", None), None);
}

#[test]
fn pointer_exit_needs_no_arguments() {
    assert_eq!(parse_platform_message("pointer_exit", None), Some(PlatformRequest::PointerExit));
}

#[test]
fn mouse_button_event_maps_button() {
    let args = map(vec![("button", EncodableValue::Int64(2)), ("is_pressed", EncodableValue::Bool(true))]);
    assert_eq!(
        parse_platform_message("mouse_button_event", Some(&args)),
        Some(PlatformRequest::MouseButtonEvent { button: 0x111, is_pressed: true })
    );
    let unknown = map(vec![("button", EncodableValue::Int64(3)), ("is_pressed", EncodableValue::Bool(true))]);
    assert_eq!(parse_platform_message("mouse_button_event", Some(&unknown)), None);
}

#[test]
fn activate_window_takes_a_list() {
    let args = EncodableValue::List(vec![EncodableValue::Int64(8), EncodableValue::Bool(false)]);
    assert_eq!(
        parse_platform_message("activate_window", Some(&args)),
        Some(PlatformRequest::ActivateWindow { view_id: 8, activate: false })
    );
    let short = EncodableValue::List(vec![EncodableValue::Int64(8)]);
    assert_eq!(parse_platform_message("activate_window", Some(&short)), None);
}

#[test]
fn resize_window_truncates_sizes() {
    let args = map(vec![
        ("view_id", EncodableValue::Int64(1)),
        ("width", EncodableValue::Int64(800)),
        ("height", EncodableValue::Int64((1 << 32) + 600)),
    ]);
    assert_eq!(
        parse_platform_message("resize_window", Some(&args)),
        Some(PlatformRequest::ResizeWindow { view_id: 1, width: 800, height: 600 })
    );
}

#[test]
fn unregister_view_texture() {
    let args = map(vec![("texture_id", EncodableValue::Int64(-1))]);
    assert_eq!(
        parse_platform_message("unregister_view_texture", Some(&args)),
        Some(PlatformRequest::UnregisterViewTexture { texture_id: -1 })
    );
}

#[test]
fn unknown_method_is_other() {
    assert_eq!(parse_platform_message("something_else", None), Some(PlatformRequest::Other));
}

#[test]
fn negative_view_id_wraps() {
    let args = EncodableValue::List(vec![EncodableValue::Int32(-1), EncodableValue::Bool(true)]);
    assert_eq!(
        parse_platform_message("activate_window", Some(&args)),
        Some(PlatformRequest::ActivateWindow { view_id: u64::MAX, activate: true })
    );
}
