//! The messages that tell Flutter what a Wayland surface looks like after a
//! commit, and their encoding as standard-codec values.
use vstd::prelude::*;
use crate::encodable_value::{
    entry, lemma_list_view, mapping, str_eq, string_entry, Encodable, EncodableValue, list_view,
};

verus! {

/// The role name of an XDG toplevel surface.
pub const XDG_TOPLEVEL_ROLE: &'static str = "xdg_toplevel";
/// The role name of an XDG popup surface.
pub const XDG_POPUP_ROLE: &'static str = "xdg_popup";
/// The role name of a subsurface.
pub const SUBSURFACE_ROLE: &'static str = "subsurface";

/// A point, in logical or buffer coordinates.
#[derive(Debug, Clone, Copy, PartialEq, Eq)]
pub struct Point {
    pub x: i32,
    pub y: i32,
}

/// A size, in logical or buffer coordinates.
#[derive(Debug, Clone, Copy, PartialEq, Eq)]
pub struct Size {
    pub w: i32,
    pub h: i32,
}

/// A rectangle: its top-left corner and its size.
#[derive(Debug, Clone, Copy, PartialEq, Eq)]
pub struct Rectangle {
    pub loc: Point,
    pub size: Size,
}

/// `a + b` clamped to the range of `i32`.
pub open spec fn sat_add(a: i32, b: i32) -> i32 {
    if a + b > i32::MAX {
        i32::MAX
    } else if a + b < i32::MIN {
        i32::MIN
    } else {
        (a + b) as i32
    }
}

/// `a - b` clamped to the range of `i32`.
pub open spec fn sat_sub(a: i32, b: i32) -> i32 {
    if a - b > i32::MAX {
        i32::MAX
    } else if a - b < i32::MIN {
        i32::MIN
    } else {
        (a - b) as i32
    }
}

pub open spec fn min4(a: i32, b: i32, c: i32, d: i32) -> i32 {
    let ab = if a <= b { a } else { b };
    let cd = if c <= d { c } else { d };
    if ab <= cd { ab } else { cd }
}

pub open spec fn max4(a: i32, b: i32, c: i32, d: i32) -> i32 {
    let ab = if a >= b { a } else { b };
    let cd = if c >= d { c } else { d };
    if ab >= cd { ab } else { cd }
}

fn add_saturating(a: i32, b: i32) -> (r: i32)
    ensures
        r == sat_add(a, b),
{
    let s: i64 = a as i64 + b as i64;
    if s > i32::MAX as i64 {
        i32::MAX
    } else if s < i32::MIN as i64 {
        i32::MIN
    } else {
        s as i32
    }
}

fn sub_saturating(a: i32, b: i32) -> (r: i32)
    ensures
        r == sat_sub(a, b),
{
    let s: i64 = a as i64 - b as i64;
    if s > i32::MAX as i64 {
        i32::MAX
    } else if s < i32::MIN as i64 {
        i32::MIN
    } else {
        s as i32
    }
}

fn min_i32(a: i32, b: i32) -> (r: i32)
    ensures
        r == (if a <= b { a } else { b }),
{
    if a <= b { a } else { b }
}

fn max_i32(a: i32, b: i32) -> (r: i32)
    ensures
        r == (if a >= b { a } else { b }),
{
    if a >= b { a } else { b }
}

impl Rectangle {
    /// The empty rectangle at the origin.
    pub open spec fn spec_default() -> Rectangle {
        Rectangle { loc: Point { x: 0, y: 0 }, size: Size { w: 0, h: 0 } }
    }

    pub fn default() -> (r: Rectangle)
        ensures
            r == Rectangle::spec_default(),
    {
        Rectangle { loc: Point { x: 0, y: 0 }, size: Size { w: 0, h: 0 } }
    }

    /// The bounding box of both rectangles' corners, the far corners computed
    /// with saturating arithmetic (as smithay's `Rectangle::merge` does).
    pub open spec fn spec_merge(self, other: Rectangle) -> Rectangle {
        let x1 = min4(self.loc.x, sat_add(self.loc.x, self.size.w), other.loc.x, sat_add(other.loc.x, other.size.w));
        let y1 = min4(self.loc.y, sat_add(self.loc.y, self.size.h), other.loc.y, sat_add(other.loc.y, other.size.h));
        let x2 = max4(self.loc.x, sat_add(self.loc.x, self.size.w), other.loc.x, sat_add(other.loc.x, other.size.w));
        let y2 = max4(self.loc.y, sat_add(self.loc.y, self.size.h), other.loc.y, sat_add(other.loc.y, other.size.h));
        Rectangle { loc: Point { x: x1, y: y1 }, size: Size { w: sat_sub(x2, x1), h: sat_sub(y2, y1) } }
    }

    /// The smallest rectangle that contains both.
    pub fn merge(self, other: Rectangle) -> (r: Rectangle)
        ensures
            r == self.spec_merge(other),
    {
        let ax2 = add_saturating(self.loc.x, self.size.w);
        let ay2 = add_saturating(self.loc.y, self.size.h);
        let bx2 = add_saturating(other.loc.x, other.size.w);
        let by2 = add_saturating(other.loc.y, other.size.h);
        let x1 = min_i32(min_i32(self.loc.x, ax2), min_i32(other.loc.x, bx2));
        let y1 = min_i32(min_i32(self.loc.y, ay2), min_i32(other.loc.y, by2));
        let x2 = max_i32(max_i32(self.loc.x, ax2), max_i32(other.loc.x, bx2));
        let y2 = max_i32(max_i32(self.loc.y, ay2), max_i32(other.loc.y, by2));
        Rectangle {
            loc: Point { x: x1, y: y1 },
            size: Size { w: sub_saturating(x2, x1), h: sub_saturating(y2, y1) },
        }
    }
}

/// Whether a rectangle of a region adds to it or is cut out of it.
#[derive(Debug, Clone, Copy, PartialEq, Eq)]
pub enum RectangleKind {
    Add,
    Subtract,
}

/// A region of a surface, as the rectangles it was built from.
pub struct RegionAttributes {
    pub rects: Vec<(RectangleKind, Rectangle)>,
}

/// The decoration mode of an XDG toplevel.
#[derive(Debug, Clone, Copy, PartialEq, Eq)]
pub enum DecorationMode {
    ClientSide,
    ServerSide,
}

impl DecorationMode {
    /// The protocol's number for the mode.
    pub open spec fn spec_value(self) -> i64 {
        match self {
            DecorationMode::ClientSide => 1,
            DecorationMode::ServerSide => 2,
        }
    }

    pub fn value(self) -> (r: i64)
        ensures
            r == self.spec_value(),
    {
        match self {
            DecorationMode::ClientSide => 1,
            DecorationMode::ServerSide => 2,
        }
    }
}

/// The texture identifier of a commit that brought no new buffer.
pub const NO_TEXTURE_ID: i64 = -1;

/// The parent identifier of a popup that has no parent surface.
pub const NO_PARENT_VIEW_ID: u64 = 0;

/// The geometry of an XDG surface: the one the client set, else the whole
/// buffer at the origin (empty when there is no buffer).
pub fn xdg_geometry(geometry: Option<Rectangle>, buffer_size: Option<Size>) -> (r: Rectangle)
    ensures
        r == (match geometry {
            Some(g) => g,
            None => Rectangle {
                loc: Point { x: 0, y: 0 },
                size: match buffer_size {
                    Some(s) => s,
                    None => Size { w: 0, h: 0 },
                },
            },
        }),
{
    match geometry {
        Some(g) => g,
        None => Rectangle {
            loc: Point { x: 0, y: 0 },
            size: match buffer_size {
                Some(s) => s,
                None => Size { w: 0, h: 0 },
            },
        },
    }
}

/// The state of a surface after a commit, as Flutter is told of it.
pub struct SurfaceCommitMessage {
    pub view_id: u64,
    pub role: Option<&'static str>,
    pub role_state: Option<WlSurfaceRoleState>,
    pub texture_id: i64,
    pub buffer_size: Option<Size>,
    pub scale: i32,
    pub input_region: Option<RegionAttributes>,
    pub subsurfaces_below: Vec<u64>,
    pub subsurfaces_above: Vec<u64>,
}

/// What a surface's role adds to its commit message.
pub enum WlSurfaceRoleState {
    Subsurface(SubsurfaceCommitMessage),
    XdgSurface(XdgSurfaceCommitMessage),
}

pub struct SubsurfaceCommitMessage {
    pub location: Point,
}

pub struct XdgSurfaceCommitMessage {
    pub role: Option<&'static str>,
    pub role_state: Option<XdgSurfaceRoleState>,
    pub geometry: Option<Rectangle>,
}

/// What an XDG surface's role adds to its commit message.
pub enum XdgSurfaceRoleState {
    Toplevel(XdgToplevelCommitMessage),
    Popup(XdgPopupCommitMessage),
}

pub struct XdgToplevelCommitMessage {
    pub decoration: Option<DecorationMode>,
}

pub struct XdgPopupCommitMessage {
    pub parent_id: u64,
    pub geometry: Rectangle,
}

/// The bounding box of the added rectangles, in order, `None` when no
/// rectangle is added.
pub open spec fn merged_added_rects(rects: Seq<(RectangleKind, Rectangle)>) -> Option<Rectangle>
    decreases rects.len(),
{
    if rects.len() == 0 {
        None
    } else {
        let acc = merged_added_rects(rects.drop_last());
        let (kind, rect) = rects.last();
        if kind == RectangleKind::Add {
            match acc {
                Some(a) => Some(a.spec_merge(rect)),
                None => Some(rect),
            }
        } else {
            acc
        }
    }
}

/// The code Flutter knows a surface's role by: 1 for an XDG surface, 2 for
/// a subsurface, 0 otherwise.
pub open spec fn surface_role_code(role: Option<&'static str>) -> i64 {
    match role {
        Some(r) => if r@ == "xdg_toplevel"@ || r@ == "xdg_popup"@ {
            1
        } else if r@ == "subsurface"@ {
            2
        } else {
            0
        },
        None => 0,
    }
}

/// The code Flutter knows an XDG surface's role by: 1 for a toplevel, 2 for
/// a popup, 0 otherwise.
pub open spec fn xdg_role_code(role: Option<&'static str>) -> i64 {
    match role {
        Some(r) => if r@ == "xdg_toplevel"@ {
            1
        } else if r@ == "xdg_popup"@ {
            2
        } else {
            0
        },
        None => 0,
    }
}

fn surface_role_code_exec(role: Option<&'static str>) -> (r: i64)
    ensures
        r == surface_role_code(role),
{
    match role {
        Some(r) => if str_eq(r, XDG_TOPLEVEL_ROLE) || str_eq(r, XDG_POPUP_ROLE) {
            1
        } else if str_eq(r, SUBSURFACE_ROLE) {
            2
        } else {
            0
        },
        None => 0,
    }
}

fn xdg_role_code_exec(role: Option<&'static str>) -> (r: i64)
    ensures
        r == xdg_role_code(role),
{
    match role {
        Some(r) => if str_eq(r, XDG_TOPLEVEL_ROLE) {
            1
        } else if str_eq(r, XDG_POPUP_ROLE) {
            2
        } else {
            0
        },
        None => 0,
    }
}

/// A list of view identifiers, each as a 64-bit integer.
pub open spec fn view_id_list(ids: Seq<u64>) -> Encodable {
    Encodable::List(ids.map_values(|id: u64| Encodable::Int64(id as i64)))
}

fn serialize_view_ids(ids: Vec<u64>) -> (r: EncodableValue)
    ensures
        r.deep() == view_id_list(ids@),
{
    let mut list: Vec<EncodableValue> = Vec::new();
    let mut i: usize = 0;
    while i < ids.len()
        invariant
            0 <= i <= ids@.len(),
            list@.len() == i,
            forall|j: int| 0 <= j < i ==> #[trigger] list@[j] == EncodableValue::Int64(ids@[j] as i64),
        decreases ids@.len() - i,
    {
        list.push(EncodableValue::Int64(ids[i] as i64));
        i = i + 1;
    }
    proof {
        lemma_list_view(list@);
        assert(list_view(list@) =~= ids@.map_values(|id: u64| Encodable::Int64(id as i64)));
    }
    EncodableValue::List(list)
}

impl SurfaceCommitMessage {
    /// The rectangle sent as the surface's input region: the bounding box of
    /// the region's added rectangles, or the whole buffer when there is no
    /// region; the empty rectangle when neither gives one.
    pub open spec fn spec_input_region(&self) -> Rectangle {
        match self.input_region {
            Some(region) => match merged_added_rects(region.rects@) {
                Some(r) => r,
                None => Rectangle::spec_default(),
            },
            None => match self.buffer_size {
                Some(size) => Rectangle { loc: Point { x: 0, y: 0 }, size },
                None => Rectangle::spec_default(),
            },
        }
    }

    /// The far corner of the input region fits in `i32`.
    pub open spec fn input_region_fits(&self) -> bool {
        let r = self.spec_input_region();
        i32::MIN <= r.loc.x + r.size.w <= i32::MAX && i32::MIN <= r.loc.y + r.size.h <= i32::MAX
    }

    pub open spec fn spec_serialize(&self) -> Encodable {
        let r = self.spec_input_region();
        Encodable::Mapping(seq![
            entry("view_id"@, Encodable::Int64(self.view_id as i64)),
            entry("surface"@, Encodable::Mapping(seq![
                entry("role"@, Encodable::Int64(surface_role_code(self.role))),
                entry("role_state"@, match self.role_state {
                    Some(s) => s.spec_serialize(),
                    None => Encodable::Null,
                }),
                entry("textureId"@, Encodable::Int64(self.texture_id)),
                entry("x"@, Encodable::Int32(0)),
                entry("y"@, Encodable::Int32(0)),
                entry("width"@, Encodable::Int32(match self.buffer_size { Some(s) => s.w, None => 0 })),
                entry("height"@, Encodable::Int32(match self.buffer_size { Some(s) => s.h, None => 0 })),
                entry("scale"@, Encodable::Int32(self.scale)),
                entry("subsurfaces_below"@, view_id_list(self.subsurfaces_below@)),
                entry("subsurfaces_above"@, view_id_list(self.subsurfaces_above@)),
                entry("input_region"@, Encodable::Mapping(seq![
                    entry("x1"@, Encodable::Int32(r.loc.x)),
                    entry("y1"@, Encodable::Int32(r.loc.y)),
                    entry("x2"@, Encodable::Int32((r.loc.x + r.size.w) as i32)),
                    entry("y2"@, Encodable::Int32((r.loc.y + r.size.h) as i32)),
                ])),
            ])),
        ])
    }

    /// Whether the far corner of the input region fits in `i32`, as
    /// `serialize` needs.
    pub fn input_region_in_range(&self) -> (r: bool)
        ensures
            r == self.input_region_fits(),
    {
        let rect = self.input_region_rect();
        let x2: i64 = rect.loc.x as i64 + rect.size.w as i64;
        let y2: i64 = rect.loc.y as i64 + rect.size.h as i64;
        i32::MIN as i64 <= x2 && x2 <= i32::MAX as i64 && i32::MIN as i64 <= y2 && y2 <= i32::MAX as i64
    }

    fn input_region_rect(&self) -> (r: Rectangle)
        ensures
            r == self.spec_input_region(),
    {
        match &self.input_region {
            Some(input_region) => {
                let mut acc: Option<Rectangle> = None;
                let mut i: usize = 0;
                while i < input_region.rects.len()
                    invariant
                        0 <= i <= input_region.rects@.len(),
                        acc == merged_added_rects(input_region.rects@.take(i as int)),
                    decreases input_region.rects@.len() - i,
                {
                    let (kind, rect) = input_region.rects[i];
                    proof {
                        assert(input_region.rects@.take(i + 1).drop_last() =~= input_region.rects@.take(i as int));
                    }
                    if let RectangleKind::Add = kind {
                        acc = match acc {
                            Some(a) => Some(a.merge(rect)),
                            None => Some(rect),
                        };
                    }
                    i = i + 1;
                }
                assert(input_region.rects@.take(input_region.rects@.len() as int) =~= input_region.rects@);
                match acc {
                    Some(r) => r,
                    None => Rectangle::default(),
                }
            },
            None => match self.buffer_size {
                Some(size) => Rectangle { loc: Point { x: 0, y: 0 }, size: Size { w: size.w, h: size.h } },
                None => Rectangle::default(),
            },
        }
    }

    /// The commit message as Flutter receives it.
    pub fn serialize(self) -> (r: EncodableValue)
        requires
            self.input_region_fits(),
        ensures
            r.deep() == self.spec_serialize(),
    {
        let input_region = self.input_region_rect();
        let ghost spec_self = self;
        let role_code = surface_role_code_exec(self.role);
        let role_state = match self.role_state {
            Some(role_state) => role_state.serialize(),
            None => EncodableValue::Null,
        };
        let (width, height) = match self.buffer_size {
            Some(size) => (size.w, size.h),
            None => (0, 0),
        };
        let below = serialize_view_ids(self.subsurfaces_below);
        let above = serialize_view_ids(self.subsurfaces_above);
        let region = mapping(vec![
            string_entry("x1", EncodableValue::Int32(input_region.loc.x)),
            string_entry("y1", EncodableValue::Int32(input_region.loc.y)),
            string_entry("x2", EncodableValue::Int32(input_region.loc.x + input_region.size.w)),
            string_entry("y2", EncodableValue::Int32(input_region.loc.y + input_region.size.h)),
        ]);
        let surface = mapping(vec![
            string_entry("role", EncodableValue::Int64(role_code)),
            string_entry("role_state", role_state),
            string_entry("textureId", EncodableValue::Int64(self.texture_id)),
            string_entry("x", EncodableValue::Int32(0)),
            string_entry("y", EncodableValue::Int32(0)),
            string_entry("width", EncodableValue::Int32(width)),
            string_entry("height", EncodableValue::Int32(height)),
            string_entry("scale", EncodableValue::Int32(self.scale)),
            string_entry("subsurfaces_below", below),
            string_entry("subsurfaces_above", above),
            string_entry("input_region", region),
        ]);
        let r = mapping(vec![
            string_entry("view_id", EncodableValue::Int64(self.view_id as i64)),
            string_entry("surface", surface),
        ]);
        proof {
            let rr = spec_self.spec_input_region();
            assert(region.deep()->Mapping_0 =~= seq![
                entry("x1"@, Encodable::Int32(rr.loc.x)),
                entry("y1"@, Encodable::Int32(rr.loc.y)),
                entry("x2"@, Encodable::Int32((rr.loc.x + rr.size.w) as i32)),
                entry("y2"@, Encodable::Int32((rr.loc.y + rr.size.h) as i32)),
            ]);
            assert(surface.deep()->Mapping_0 =~= spec_self.spec_serialize()->Mapping_0[1].1->Mapping_0);
            assert(r.deep()->Mapping_0 =~= spec_self.spec_serialize()->Mapping_0);
        }
        r
    }
}

impl WlSurfaceRoleState {
    pub open spec fn spec_serialize(&self) -> Encodable {
        match self {
            WlSurfaceRoleState::Subsurface(s) => s.spec_serialize(),
            WlSurfaceRoleState::XdgSurface(s) => s.spec_serialize(),
        }
    }

    pub fn serialize(self) -> (r: EncodableValue)
        ensures
            r.deep() == self.spec_serialize(),
    {
        match self {
            WlSurfaceRoleState::Subsurface(subsurface) => subsurface.serialize(),
            WlSurfaceRoleState::XdgSurface(xdg_surface) => xdg_surface.serialize(),
        }
    }
}

impl SubsurfaceCommitMessage {
    pub open spec fn spec_serialize(&self) -> Encodable {
        Encodable::Mapping(seq![
            entry("x"@, Encodable::Int64(self.location.x as i64)),
            entry("y"@, Encodable::Int64(self.location.y as i64)),
        ])
    }

    pub fn serialize(self) -> (r: EncodableValue)
        ensures
            r.deep() == self.spec_serialize(),
    {
        let r = mapping(vec![
            string_entry("x", EncodableValue::Int64(self.location.x as i64)),
            string_entry("y", EncodableValue::Int64(self.location.y as i64)),
        ]);
        assert(r.deep()->Mapping_0 =~= self.spec_serialize()->Mapping_0);
        r
    }
}

impl XdgSurfaceCommitMessage {
    pub open spec fn spec_serialize(&self) -> Encodable {
        Encodable::Mapping(seq![
            entry("role"@, Encodable::Int64(xdg_role_code(self.role))),
            entry("role_state"@, match self.role_state {
                Some(s) => s.spec_serialize(),
                None => Encodable::Null,
            }),
            entry("x"@, Encodable::Int64(match self.geometry { Some(g) => g.loc.x as i64, None => 0 })),
            entry("y"@, Encodable::Int64(match self.geometry { Some(g) => g.loc.y as i64, None => 0 })),
            entry("width"@, Encodable::Int64(match self.geometry { Some(g) => g.size.w as i64, None => 0 })),
            entry("height"@, Encodable::Int64(match self.geometry { Some(g) => g.size.h as i64, None => 0 })),
        ])
    }

    pub fn serialize(self) -> (r: EncodableValue)
        ensures
            r.deep() == self.spec_serialize(),
    {
        let ghost spec_self = self;
        let role_code = xdg_role_code_exec(self.role);
        let role_state = match self.role_state {
            Some(role_state) => role_state.serialize(),
            None => EncodableValue::Null,
        };
        let (x, y, w, h) = match self.geometry {
            Some(g) => (g.loc.x, g.loc.y, g.size.w, g.size.h),
            None => (0, 0, 0, 0),
        };
        let r = mapping(vec![
            string_entry("role", EncodableValue::Int64(role_code)),
            string_entry("role_state", role_state),
            string_entry("x", EncodableValue::Int64(x as i64)),
            string_entry("y", EncodableValue::Int64(y as i64)),
            string_entry("width", EncodableValue::Int64(w as i64)),
            string_entry("height", EncodableValue::Int64(h as i64)),
        ]);
        assert(r.deep()->Mapping_0 =~= spec_self.spec_serialize()->Mapping_0);
        r
    }
}

impl XdgSurfaceRoleState {
    pub open spec fn spec_serialize(&self) -> Encodable {
        match self {
            XdgSurfaceRoleState::Toplevel(t) => t.spec_serialize(),
            XdgSurfaceRoleState::Popup(p) => p.spec_serialize(),
        }
    }

    pub fn serialize(self) -> (r: EncodableValue)
        ensures
            r.deep() == self.spec_serialize(),
    {
        match self {
            XdgSurfaceRoleState::Toplevel(toplevel) => toplevel.serialize(),
            XdgSurfaceRoleState::Popup(popup) => popup.serialize(),
        }
    }
}

impl XdgToplevelCommitMessage {
    pub open spec fn spec_serialize(&self) -> Encodable {
        Encodable::Mapping(seq![
            entry("decoration"@, match self.decoration {
                Some(d) => Encodable::Int64(d.spec_value()),
                None => Encodable::Null,
            }),
        ])
    }

    pub fn serialize(self) -> (r: EncodableValue)
        ensures
            r.deep() == self.spec_serialize(),
    {
        let decoration = match self.decoration {
            Some(d) => EncodableValue::Int64(d.value()),
            None => EncodableValue::Null,
        };
        let r = mapping(vec![string_entry("decoration", decoration)]);
        assert(r.deep()->Mapping_0 =~= self.spec_serialize()->Mapping_0);
        r
    }
}

impl XdgPopupCommitMessage {
    pub open spec fn spec_serialize(&self) -> Encodable {
        Encodable::Mapping(seq![
            entry("parent_id"@, Encodable::Int64(self.parent_id as i64)),
            entry("x"@, Encodable::Int64(self.geometry.loc.x as i64)),
            entry("y"@, Encodable::Int64(self.geometry.loc.y as i64)),
            entry("width"@, Encodable::Int64(self.geometry.size.w as i64)),
            entry("height"@, Encodable::Int64(self.geometry.size.h as i64)),
        ])
    }

    pub fn serialize(self) -> (r: EncodableValue)
        ensures
            r.deep() == self.spec_serialize(),
    {
        let r = mapping(vec![
            string_entry("parent_id", EncodableValue::Int64(self.parent_id as i64)),
            string_entry("x", EncodableValue::Int64(self.geometry.loc.x as i64)),
            string_entry("y", EncodableValue::Int64(self.geometry.loc.y as i64)),
            string_entry("width", EncodableValue::Int64(self.geometry.size.w as i64)),
            string_entry("height", EncodableValue::Int64(self.geometry.size.h as i64)),
        ]);
        assert(r.deep()->Mapping_0 =~= self.spec_serialize()->Mapping_0);
        r
    }
}

/// A map from `"view_id"` to the view's identifier.
pub open spec fn spec_view_message(view_id: u64) -> Encodable {
    Encodable::Mapping(seq![entry("view_id"@, Encodable::Int64(view_id as i64))])
}

/// The message that names a view: sent when a surface or toplevel is
/// created or destroyed, and when a toplevel asks to be moved.
pub fn view_message(view_id: u64) -> (r: EncodableValue)
    ensures
        r.deep() == spec_view_message(view_id),
{
    let r = mapping(vec![string_entry("view_id", EncodableValue::Int64(view_id as i64))]);
    assert(r.deep()->Mapping_0 =~= spec_view_message(view_id)->Mapping_0);
    r
}

/// The message that names a view and its parent: sent when a subsurface or
/// a popup is created.
pub fn view_with_parent_message(view_id: u64, parent: u64) -> (r: EncodableValue)
    ensures
        r.deep() == Encodable::Mapping(seq![
            entry("view_id"@, Encodable::Int64(view_id as i64)),
            entry("parent"@, Encodable::Int64(parent as i64)),
        ]),
{
    let r = mapping(vec![
        string_entry("view_id", EncodableValue::Int64(view_id as i64)),
        string_entry("parent", EncodableValue::Int64(parent as i64)),
    ]);
    assert(r.deep()->Mapping_0 =~= seq![
        entry("view_id"@, Encodable::Int64(view_id as i64)),
        entry("parent"@, Encodable::Int64(parent as i64)),
    ]);
    r
}

/// The message sent when a toplevel asks to be resized from the given edge
/// (the protocol's number for the edge).
pub fn interactive_resize_message(view_id: u64, edge: u32) -> (r: EncodableValue)
    ensures
        r.deep() == Encodable::Mapping(seq![
            entry("view_id"@, Encodable::Int64(view_id as i64)),
            entry("edge"@, Encodable::Int64(edge as i64)),
        ]),
{
    let r = mapping(vec![
        string_entry("view_id", EncodableValue::Int64(view_id as i64)),
        string_entry("edge", EncodableValue::Int64(edge as i64)),
    ]);
    assert(r.deep()->Mapping_0 =~= seq![
        entry("view_id"@, Encodable::Int64(view_id as i64)),
        entry("edge"@, Encodable::Int64(edge as i64)),
    ]);
    r
}

/// The message sent when a toplevel's text property `key` (its application
/// identifier or its title) changes.
pub fn view_text_message(view_id: u64, key: &str, text: String) -> (r: EncodableValue)
    ensures
        r.deep() == Encodable::Mapping(seq![
            entry("view_id"@, Encodable::Int64(view_id as i64)),
            entry(key@, Encodable::Str(text@)),
        ]),
{
    let ghost t = text@;
    let r = mapping(vec![
        string_entry("view_id", EncodableValue::Int64(view_id as i64)),
        string_entry(key, EncodableValue::String(text)),
    ]);
    assert(r.deep()->Mapping_0 =~= seq![
        entry("view_id"@, Encodable::Int64(view_id as i64)),
        entry(key@, Encodable::Str(t)),
    ]);
    r
}

/// The children of a surface, split by the surface's own place in their
/// stacking order (`None` stands for the surface itself): those met before
/// it are below, those met after it above.
pub open spec fn spec_split_subsurfaces(stack: Seq<Option<u64>>) -> (Seq<u64>, Seq<u64>)
    decreases stack.len(),
{
    if stack.len() == 0 {
        (Seq::empty(), Seq::empty())
    } else {
        let (below, above) = spec_split_subsurfaces(stack.drop_last());
        match stack.last() {
            None => (below, above),
            Some(id) => if stack.drop_last().contains(None) {
                (below, above.push(id))
            } else {
                (below.push(id), above)
            },
        }
    }
}

/// Child surfaces, as they stand in a stacking order.
pub open spec fn children(ids: Seq<u64>) -> Seq<Option<u64>> {
    ids.map_values(|id: u64| Some(id))
}

proof fn lemma_split_children_only(ids: Seq<u64>)
    ensures
        spec_split_subsurfaces(children(ids)) == (ids, Seq::<u64>::empty()),
        !children(ids).contains(None),
    decreases ids.len(),
{
    if ids.len() > 0 {
        lemma_split_children_only(ids.drop_last());
        assert(children(ids).drop_last() =~= children(ids.drop_last()));
        assert(ids.drop_last().push(ids.last()) =~= ids);
    } else {
        assert(children(ids) =~= Seq::<Option<u64>>::empty());
    }
    assert(!children(ids).contains(None)) by {
        if children(ids).contains(None) {
            let i = choose|i: int| 0 <= i < children(ids).len() && children(ids)[i] == None::<u64>;
            assert(children(ids)[i] == Some(ids[i]));
        }
    }
}

proof fn lemma_split_after_surface(prefix: Seq<Option<u64>>, ids: Seq<u64>)
    requires
        prefix.contains(None),
    ensures
        spec_split_subsurfaces(prefix + children(ids)) == (
            spec_split_subsurfaces(prefix).0,
            spec_split_subsurfaces(prefix).1 + ids,
        ),
    decreases ids.len(),
{
    if ids.len() == 0 {
        assert(prefix + children(ids) =~= prefix);
        assert(spec_split_subsurfaces(prefix).1 + ids =~= spec_split_subsurfaces(prefix).1);
    } else {
        let s = prefix + children(ids);
        lemma_split_after_surface(prefix, ids.drop_last());
        assert(s.drop_last() =~= prefix + children(ids.drop_last()));
        assert(s.last() == Some(ids.last()));
        let j = choose|j: int| 0 <= j < prefix.len() && prefix[j] == None::<u64>;
        assert(s.drop_last()[j] == None::<u64>);
        assert(spec_split_subsurfaces(prefix).1 + ids.drop_last().push(ids.last())
            =~= spec_split_subsurfaces(prefix).1 + ids);
    }
}

/// A surface's children split at the surface: in a stacking order made of
/// the children `below`, the surface itself, then the children `above`,
/// the subsurfaces below are exactly `below` and those above exactly
/// `above`, each in the order in which they are met (bottom first).
pub proof fn lemma_split_keeps_stacking_order(below: Seq<u64>, above: Seq<u64>)
    ensures
        spec_split_subsurfaces(children(below).push(None) + children(above)) == (below, above),
{
    let p = children(below).push(None);
    lemma_split_children_only(below);
    assert(p.drop_last() =~= children(below));
    assert(p[p.len() - 1] == None::<u64>);
    assert(spec_split_subsurfaces(p) == (below, Seq::<u64>::empty()));
    lemma_split_after_surface(p, above);
    assert(Seq::<u64>::empty() + above =~= above);
}

/// Splits a surface's stacking order into the subsurfaces below it and
/// those above it, each bottom first.
pub fn split_subsurfaces(stack: &[Option<u64>]) -> (r: (Vec<u64>, Vec<u64>))
    ensures
        (r.0@, r.1@) == spec_split_subsurfaces(stack@),
{
    let mut below: Vec<u64> = Vec::new();
    let mut above_list: Vec<u64> = Vec::new();
    let mut above = false;
    let mut i: usize = 0;
    while i < stack.len()
        invariant
            0 <= i <= stack@.len(),
            (below@, above_list@) == spec_split_subsurfaces(stack@.take(i as int)),
            above == stack@.take(i as int).contains(None),
        decreases stack@.len() - i,
    {
        proof {
            assert(stack@.take(i + 1).drop_last() =~= stack@.take(i as int));
            assert(stack@.take(i + 1).last() == stack@[i as int]);
        }
        match stack[i] {
            None => {
                above = true;
                proof {
                    assert(stack@.take(i + 1)[i as int] == None::<u64>);
                }
            },
            Some(view_id) => {
                proof {
                    let t = stack@.take(i as int);
                    assert(stack@.take(i + 1) =~= t.push(Some(view_id)));
                    if stack@.take(i + 1).contains(None) {
                        let j = choose|j: int| 0 <= j < i + 1 && #[trigger] stack@.take(i + 1)[j] == None::<u64>;
                        assert(t[j] == None::<u64>);
                    }
                    if t.contains(None) {
                        let j = choose|j: int| 0 <= j < i && #[trigger] t[j] == None::<u64>;
                        assert(stack@.take(i + 1)[j] == None::<u64>);
                    }
                }
                if above {
                    above_list.push(view_id);
                } else {
                    below.push(view_id);
                }
            },
        }
        i = i + 1;
    }
    assert(stack@.take(stack@.len() as int) =~= stack@);
    (below, above_list)
}

/// `v` lies between `a` and `b` (in either order).
pub open spec fn between(v: int, a: int, b: int) -> bool {
    (a <= v <= b) || (b <= v <= a)
}

/// Both corners of `inner` lie within `outer`.
pub open spec fn covers(outer: Rectangle, inner: Rectangle) -> bool {
    let ox1 = outer.loc.x as int;
    let oy1 = outer.loc.y as int;
    let ox2 = outer.loc.x + outer.size.w;
    let oy2 = outer.loc.y + outer.size.h;
    &&& between(inner.loc.x as int, ox1, ox2)
    &&& between(inner.loc.x + inner.size.w, ox1, ox2)
    &&& between(inner.loc.y as int, oy1, oy2)
    &&& between(inner.loc.y + inner.size.h, oy1, oy2)
}

/// The far corner of `r` fits in `i32`.
pub open spec fn corner_fits(r: Rectangle) -> bool {
    &&& i32::MIN <= r.loc.x + r.size.w <= i32::MAX
    &&& i32::MIN <= r.loc.y + r.size.h <= i32::MAX
}

/// Merging `a` and `b` involves no saturated arithmetic.
pub open spec fn merges_exactly(a: Rectangle, b: Rectangle) -> bool {
    &&& corner_fits(a)
    &&& corner_fits(b)
    &&& corner_fits(a.spec_merge(b))
    &&& a.spec_merge(b).size.w >= 0
    &&& a.spec_merge(b).size.h >= 0
    &&& {
        let x1 = min4(a.loc.x, sat_add(a.loc.x, a.size.w), b.loc.x, sat_add(b.loc.x, b.size.w));
        let x2 = max4(a.loc.x, sat_add(a.loc.x, a.size.w), b.loc.x, sat_add(b.loc.x, b.size.w));
        let y1 = min4(a.loc.y, sat_add(a.loc.y, a.size.h), b.loc.y, sat_add(b.loc.y, b.size.h));
        let y2 = max4(a.loc.y, sat_add(a.loc.y, a.size.h), b.loc.y, sat_add(b.loc.y, b.size.h));
        x2 - x1 <= i32::MAX && y2 - y1 <= i32::MAX
    }
}

/// The merge of two rectangles covers both, when no arithmetic saturates.
pub proof fn lemma_merge_covers_both(a: Rectangle, b: Rectangle)
    requires
        merges_exactly(a, b),
    ensures
        covers(a.spec_merge(b), a),
        covers(a.spec_merge(b), b),
{
}

/// Every step of merging the added rectangles, in order, is exact.
pub open spec fn region_merges_exactly(rects: Seq<(RectangleKind, Rectangle)>) -> bool
    decreases rects.len(),
{
    if rects.len() == 0 {
        true
    } else {
        &&& region_merges_exactly(rects.drop_last())
        &&& (rects.last().0 == RectangleKind::Add ==> match merged_added_rects(rects.drop_last()) {
            Some(acc) => merges_exactly(acc, rects.last().1),
            None => corner_fits(rects.last().1),
        })
    }
}

/// The input region sent to Flutter covers every rectangle added to the
/// surface's input region (when no arithmetic saturates on the way).
pub proof fn lemma_input_region_covers_added_rects(rects: Seq<(RectangleKind, Rectangle)>, i: int)
    requires
        region_merges_exactly(rects),
        0 <= i < rects.len(),
        rects[i].0 == RectangleKind::Add,
    ensures
        merged_added_rects(rects) is Some,
        covers(merged_added_rects(rects)->Some_0, rects[i].1),
    decreases rects.len(),
{
    let init = rects.drop_last();
    let (kind, last) = rects.last();
    if i == rects.len() - 1 {
        match merged_added_rects(init) {
            Some(acc) => {
                lemma_merge_covers_both(acc, last);
            },
            None => {},
        }
    } else {
        assert(init[i] == rects[i]);
        lemma_input_region_covers_added_rects(init, i);
        if kind == RectangleKind::Add {
            let acc = merged_added_rects(init)->Some_0;
            lemma_merge_covers_both(acc, last);
            lemma_covers_transitive(acc.spec_merge(last), acc, rects[i].1);
        }
    }
}

proof fn lemma_covers_transitive(a: Rectangle, b: Rectangle, c: Rectangle)
    requires
        covers(a, b),
        covers(b, c),
    ensures
        covers(a, c),
{
}

} // verus!
