use wayvern::encodable_value::EncodableValue;
use wayvern::wayland_messages::{
    interactive_resize_message, split_subsurfaces, xdg_geometry, NO_PARENT_VIEW_ID, NO_TEXTURE_ID, view_message, view_text_message, view_with_parent_message,
    DecorationMode, Point, Rectangle, RectangleKind, RegionAttributes, Size, SubsurfaceCommitMessage,
    SurfaceCommitMessage, WlSurfaceRoleState, XdgPopupCommitMessage, XdgSurfaceCommitMessage,
    XdgSurfaceRoleState, XdgToplevelCommitMessage,
};

fn s(v: &str) -> EncodableValue {
    EncodableValue::String(v.to_string())
}

fn map(entries: Vec<(&str, EncodableValue)>) -> EncodableValue {
    EncodableValue::Mapping(entries.into_iter().map(|(k, v)| (s(k), v)).collect())
}

fn rect(x: i32, y: i32, w: i32, h: i32) -> Rectangle {
    Rectangle { loc: Point { x, y }, size: Size { w, h } }
}

fn message(input_region: Option<RegionAttributes>, buffer_size: Option<Size>) -> SurfaceCommitMessage {
    SurfaceCommitMessage {
        view_id: 4,
        role: Some("xdg_toplevel"),
        role_state: None,
        texture_id: 9,
        buffer_size,
        scale: 2,
        input_region,
        subsurfaces_below: vec![1, 2],
        subsurfaces_above: vec![],
    }
}

fn input_region_of(v: &EncodableValue) -> Vec<EncodableValue> {
    let EncodableValue::Mapping(top) = v else { panic!() };
    let EncodableValue::Mapping(surface) = &top[1].1 else { panic!() };
    let EncodableValue::Mapping(region) = &surface[10].1 else { panic!() };
    region.iter().map(|(_, v)| match v {
        EncodableValue::Int32(x) => EncodableValue::Int32(*x),
        _ => panic!(),
    }).collect()
}

#[test]
fn merge_is_bounding_box() {
    assert_eq!(rect(0, 0, 10, 10).merge(rect(5, -5, 10, 10)), rect(0, -5, 15, 15));
    assert_eq!(rect(3, 3, 1, 1).merge(rect(3, 3, 1, 1)), rect(3, 3, 1, 1));
}

#[test]
fn merge_saturates() {
    assert_eq!(
        rect(i32::MIN, 0, 0, 0).merge(rect(i32::MAX - 1, 0, 10, 0)),
        rect(i32::MIN, 0, i32::MAX, 0)
    );
}

#[test]
fn full_surface_commit_message() {
    let msg = message(None, Some(Size { w: 640, h: 480 }));
    let expected = map(vec![
        ("view_id", EncodableValue::Int64(4)),
        ("surface", map(vec![
            ("role", EncodableValue::Int64(1)),
            ("role_state", EncodableValue::Null),
            ("textureId", EncodableValue::Int64(9)),
            ("x", EncodableValue::Int32(0)),
            ("y", EncodableValue::Int32(0)),
            ("width", EncodableValue::Int32(640)),
            ("height", EncodableValue::Int32(480)),
            ("scale", EncodableValue::Int32(2)),
            ("subsurfaces_below", EncodableValue::List(vec![EncodableValue::Int64(1), EncodableValue::Int64(2)])),
            ("subsurfaces_above", EncodableValue::List(vec![])),
            ("input_region", map(vec![
                ("x1", EncodableValue::Int32(0)),
                ("y1", EncodableValue::Int32(0)),
                ("x2", EncodableValue::Int32(640)),
                ("y2", EncodableValue::Int32(480)),
            ])),
        ])),
    ]);
    assert_eq!(msg.serialize(), expected);
}

#[test]
fn input_region_merges_added_rects_only() {
    let region = RegionAttributes {
        rects: vec![
            (RectangleKind::Add, rect(10, 10, 5, 5)),
            (RectangleKind::Subtract, rect(-100, -100, 500, 500)),
            (RectangleKind::Add, rect(30, 0, 10, 4)),
        ],
    };
    let v = message(Some(region), Some(Size { w: 640, h: 480 })).serialize();
    assert_eq!(
        input_region_of(&v),
        vec![EncodableValue::Int32(10), EncodableValue::Int32(0), EncodableValue::Int32(40), EncodableValue::Int32(15)]
    );
}

#[test]
fn empty_region_and_no_buffer_give_empty_rect() {
    let v = message(Some(RegionAttributes { rects: vec![] }), Some(Size { w: 5, h: 5 })).serialize();
    assert_eq!(input_region_of(&v), (0..4).map(|_| EncodableValue::Int32(0)).collect::<Vec<_>>());
    let v = message(None, None).serialize();
    assert_eq!(input_region_of(&v), (0..4).map(|_| EncodableValue::Int32(0)).collect::<Vec<_>>());
}

#[test]
fn role_codes() {
    for (role, code) in [(Some("xdg_toplevel"), 1), (Some("xdg_popup"), 1), (Some("subsurface"), 2), (Some("cursor"), 0), (None, 0)] {
        let mut msg = message(None, None);
        msg.role = role;
        let EncodableValue::Mapping(top) = msg.serialize() else { panic!() };
        let EncodableValue::Mapping(surface) = &top[1].1 else { panic!() };
        assert_eq!(surface[0], (s("role"), EncodableValue::Int64(code)));
    }
}

#[test]
fn view_id_above_i64_wraps() {
    let mut msg = message(None, None);
    msg.view_id = u64::MAX;
    let EncodableValue::Mapping(top) = msg.serialize() else { panic!() };
    assert_eq!(top[0].1, EncodableValue::Int64(-1));
}

#[test]
fn subsurface_role_state() {
    let state = WlSurfaceRoleState::Subsurface(SubsurfaceCommitMessage { location: Point { x: -3, y: 7 } });
    assert_eq!(state.serialize(), map(vec![("x", EncodableValue::Int64(-3)), ("y", EncodableValue::Int64(7))]));
}

#[test]
fn xdg_toplevel_role_state() {
    let state = WlSurfaceRoleState::XdgSurface(XdgSurfaceCommitMessage {
        role: Some("xdg_toplevel"),
        role_state: Some(XdgSurfaceRoleState::Toplevel(XdgToplevelCommitMessage {
            decoration: Some(DecorationMode::ServerSide),
        })),
        geometry: Some(rect(1, 2, 3, 4)),
    });
    assert_eq!(state.serialize(), map(vec![
        ("role", EncodableValue::Int64(1)),
        ("role_state", map(vec![("decoration", EncodableValue::Int64(2))])),
        ("x", EncodableValue::Int64(1)),
        ("y", EncodableValue::Int64(2)),
        ("width", EncodableValue::Int64(3)),
        ("height", EncodableValue::Int64(4)),
    ]));
}

#[test]
fn xdg_popup_role_state() {
    let state = XdgSurfaceCommitMessage {
        role: Some("xdg_popup"),
        role_state: Some(XdgSurfaceRoleState::Popup(XdgPopupCommitMessage {
            parent_id: 12,
            geometry: rect(5, 6, 70, 80),
        })),
        geometry: None,
    };
    assert_eq!(state.serialize(), map(vec![
        ("role", EncodableValue::Int64(2)),
        ("role_state", map(vec![
            ("parent_id", EncodableValue::Int64(12)),
            ("x", EncodableValue::Int64(5)),
            ("y", EncodableValue::Int64(6)),
            ("width", EncodableValue::Int64(70)),
            ("height", EncodableValue::Int64(80)),
        ])),
        ("x", EncodableValue::Int64(0)),
        ("y", EncodableValue::Int64(0)),
        ("width", EncodableValue::Int64(0)),
        ("height", EncodableValue::Int64(0)),
    ]));
}

#[test]
fn toplevel_without_decoration() {
    let t = XdgToplevelCommitMessage { decoration: None };
    assert_eq!(t.serialize(), map(vec![("decoration", EncodableValue::Null)]));
    let t = XdgToplevelCommitMessage { decoration: Some(DecorationMode::ClientSide) };
    assert_eq!(t.serialize(), map(vec![("decoration", EncodableValue::Int64(1))]));
}

#[test]
fn view_messages() {
    assert_eq!(view_message(3), map(vec![("view_id", EncodableValue::Int64(3))]));
    assert_eq!(
        view_with_parent_message(3, 1),
        map(vec![("view_id", EncodableValue::Int64(3)), ("parent", EncodableValue::Int64(1))])
    );
    assert_eq!(
        interactive_resize_message(3, 10),
        map(vec![("view_id", EncodableValue::Int64(3)), ("edge", EncodableValue::Int64(10))])
    );
    assert_eq!(
        view_text_message(3, "title", "Terminal".to_string()),
        map(vec![("view_id", EncodableValue::Int64(3)), ("title", s("Terminal"))])
    );
}

#[test]
fn subsurfaces_split_at_the_surface() {
    assert_eq!(split_subsurfaces(&[Some(5), None, Some(6), Some(7)]), (vec![5], vec![6, 7]));
    assert_eq!(split_subsurfaces(&[None]), (vec![], vec![]));
    assert_eq!(split_subsurfaces(&[Some(1), Some(2)]), (vec![1, 2], vec![]));
    assert_eq!(split_subsurfaces(&[]), (vec![], vec![]));
}

#[test]
fn input_region_range_check() {
    assert!(message(None, Some(Size { w: 640, h: 480 })).input_region_in_range());
    assert!(message(None, None).input_region_in_range());
    let far = RegionAttributes { rects: vec![(RectangleKind::Add, rect(i32::MAX - 5, 0, 10, 10))] };
    assert!(!message(Some(far), None).input_region_in_range());
    let cut = RegionAttributes {
        rects: vec![
            (RectangleKind::Add, rect(0, 0, 10, 10)),
            (RectangleKind::Subtract, rect(i32::MAX - 5, 0, 10, 10)),
        ],
    };
    assert!(message(Some(cut), None).input_region_in_range());
}

#[test]
fn xdg_geometry_defaults_to_buffer() {
    assert_eq!(xdg_geometry(Some(rect(1, 2, 3, 4)), Some(Size { w: 9, h: 9 })), rect(1, 2, 3, 4));
    assert_eq!(xdg_geometry(None, Some(Size { w: 9, h: 8 })), rect(0, 0, 9, 8));
    assert_eq!(xdg_geometry(None, None), rect(0, 0, 0, 0));
    assert_eq!(NO_TEXTURE_ID, -1);
    assert_eq!(NO_PARENT_VIEW_ID, 0);
}
