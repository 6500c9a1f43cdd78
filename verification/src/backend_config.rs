//! Decisions of the DRM and X11 backends that environment settings and
//! device properties drive.
use vstd::prelude::*;
use crate::encodable_value::str_eq;

verus! {

/// The lower-case form of a string, as Rust's `str::to_lowercase` gives it.
pub uninterp spec fn lowercase(s: Seq<char>) -> Seq<char>;

/// `str::to_lowercase`: its result is a function of the string alone (the
/// Unicode lower-case mapping); which function it is, is not stated here.
#[verifier::external_body]
fn to_lowercase(s: &str) -> (r: String)
    ensures
        r@ == lowercase(s@),
{
    s.to_lowercase()
}

/// A setting that reads as "yes": `1`, or, once lower-cased, `true`, `yes`
/// or `y`.
pub open spec fn is_truthy(value: Seq<char>, lower: Seq<char>) -> bool {
    value == "1"@ || lower == "true"@ || lower == "yes"@ || lower == "y"@
}

/// Only the lower-case form of a setting counts, apart from `1`: two
/// settings other than `1` with the same lower-case form (`Y` and `y`,
/// `TRUE` and `true`) read alike, and one whose lower-case form is `true`,
/// `yes` or `y` reads as yes.
pub proof fn lemma_truthy_ignores_case(v1: Seq<char>, v2: Seq<char>)
    ensures
        v1 != "1"@ && v2 != "1"@ && lowercase(v1) == lowercase(v2) ==> is_truthy(v1, lowercase(v1)) == is_truthy(
            v2,
            lowercase(v2),
        ),
        lowercase(v1) == "true"@ || lowercase(v1) == "yes"@ || lowercase(v1) == "y"@ ==> is_truthy(
            v1,
            lowercase(v1),
        ),
        v1 == "1"@ ==> is_truthy(v1, lowercase(v1)),
{
}

/// Whether a setting reads as "yes", given the setting and its lower-case
/// form.
pub fn setting_is_truthy(value: &str, lower: &str) -> (r: bool)
    ensures
        r == is_truthy(value@, lower@),
{
    str_eq(value, "1") || str_eq(lower, "true") || str_eq(lower, "yes") || str_eq(lower, "y")
}

/// Whether the setting that disables Vulkan (`ANVIL_NO_VULKAN`) is on: set,
/// and reading as "yes" in any case.
pub fn vulkan_disabled(value: Option<&str>) -> (r: bool)
    ensures
        r == (match value {
            Some(v) => is_truthy(v@, lowercase(v@)),
            None => false,
        }),
{
    match value {
        Some(x) => {
            let lower = to_lowercase(x);
            setting_is_truthy(x, lower.as_str())
        },
        None => false,
    }
}

/// `needle` occurs in `hay` at position `i`.
pub open spec fn occurs_at(hay: Seq<char>, needle: Seq<char>, i: int) -> bool {
    0 <= i && i + needle.len() <= hay.len() && hay.subrange(i, i + needle.len() as int) == needle
}

/// `needle` occurs somewhere in `hay`.
pub open spec fn contains_seq(hay: Seq<char>, needle: Seq<char>) -> bool {
    exists|i: int| occurs_at(hay, needle, i)
}

fn chars_of(s: &str) -> (r: Vec<char>)
    ensures
        r@ == s@,
{
    let n = s.unicode_len();
    let mut v: Vec<char> = Vec::new();
    let mut i: usize = 0;
    while i < n
        invariant
            n == s@.len(),
            0 <= i <= n,
            v@ == s@.take(i as int),
        decreases n - i,
    {
        v.push(s.get_char(i));
        i = i + 1;
        assert(v@ =~= s@.take(i as int));
    }
    assert(s@.take(n as int) =~= s@);
    v
}

/// Whether `needle` occurs in `hay`.
pub fn contains(hay: &str, needle: &str) -> (r: bool)
    ensures
        r == contains_seq(hay@, needle@),
{
    let h = chars_of(hay);
    let n = chars_of(needle);
    if n.len() > h.len() {
        assert forall|i: int| !occurs_at(hay@, needle@, i) by {}
        return false;
    }
    let hl = h.len();
    let nl = n.len();
    let mut i: usize = 0;
    while i <= hl - nl
        invariant
            hl == h@.len(),
            nl == n@.len(),
            h@ == hay@,
            n@ == needle@,
            n@.len() <= h@.len(),
            0 <= i <= h@.len() - n@.len() + 1,
            forall|j: int| 0 <= j < i ==> !occurs_at(hay@, needle@, j),
        decreases h@.len() - i,
    {
        let mut k: usize = 0;
        let mut same = true;
        while k < nl
            invariant
                hl == h@.len(),
                nl == n@.len(),
                h@ == hay@,
                n@ == needle@,
                i + n@.len() <= h@.len(),
                0 <= k <= n@.len(),
                same == (forall|m: int| 0 <= m < k ==> h@[i + m] == n@[m]),
            decreases n@.len() - k,
        {
            if h[i + k] != n[k] {
                same = false;
            }
            k = k + 1;
        }
        if same {
            assert(h@.subrange(i as int, i + n@.len()) =~= n@);
            assert(occurs_at(hay@, needle@, i as int));
            return true;
        }
        assert(!occurs_at(hay@, needle@, i as int)) by {
            let m = choose|m: int| 0 <= m < n@.len() && h@[i + m] != n@[m];
            assert(h@.subrange(i as int, i + n@.len())[m] != n@[m]);
        }
        i = i + 1;
    }
    assert forall|j: int| !occurs_at(hay@, needle@, j) by {
        if 0 <= j < i {
        }
    }
    false
}

/// Whether a driver's lower-cased name or description mentions NVIDIA.
pub fn mentions_nvidia(lower_name: &str, lower_description: &str) -> (r: bool)
    ensures
        r == (contains_seq(lower_name@, "nvidia"@) || contains_seq(lower_description@, "nvidia"@)),
{
    contains(lower_name, "nvidia") || contains(lower_description, "nvidia")
}

/// Whether a DRM driver is NVIDIA's, by its name or description in any
/// case; overlay planes are not used on such a driver.
pub fn is_nvidia_driver(name: &str, description: &str) -> (r: bool)
    ensures
        r == (contains_seq(lowercase(name@), "nvidia"@) || contains_seq(lowercase(description@), "nvidia"@)),
{
    let name = to_lowercase(name);
    let description = to_lowercase(description);
    mentions_nvidia(name.as_str(), description.as_str())
}

/// The mode of a connector to use: the first preferred one, else the first.
pub fn preferred_mode_index(preferred: &[bool]) -> (r: usize)
    ensures
        preferred@.len() == 0 ==> r == 0,
        (exists|i: int| 0 <= i < preferred@.len() && preferred@[i]) ==> {
            &&& r < preferred@.len()
            &&& preferred@[r as int]
            &&& forall|j: int| 0 <= j < r ==> !preferred@[j]
        },
        (forall|i: int| 0 <= i < preferred@.len() ==> !preferred@[i]) ==> r == 0,
{
    let mut i: usize = 0;
    while i < preferred.len()
        invariant
            0 <= i <= preferred@.len(),
            forall|j: int| 0 <= j < i ==> !preferred@[j],
        decreases preferred@.len() - i,
    {
        if preferred[i] {
            return i;
        }
        i = i + 1;
    }
    0
}

/// The pixel formats that a DRM surface may render in.
#[derive(Debug, Clone, Copy, PartialEq, Eq)]
pub enum ColorFormat {
    Abgr2101010,
    Argb2101010,
    Abgr8888,
    Argb8888,
}

/// The formats offered to a DRM surface, best first: the 10-bit ones
/// before the 8-bit ones, unless 10-bit formats are disabled
/// (`ANVIL_DISABLE_10BIT`).
pub fn supported_color_formats(disable_10bit: bool) -> (r: Vec<ColorFormat>)
    ensures
        disable_10bit ==> r@ == seq![ColorFormat::Abgr8888, ColorFormat::Argb8888],
        !disable_10bit ==> r@ == seq![
            ColorFormat::Abgr2101010,
            ColorFormat::Argb2101010,
            ColorFormat::Abgr8888,
            ColorFormat::Argb8888,
        ],
{
    if disable_10bit {
        vec![ColorFormat::Abgr8888, ColorFormat::Argb8888]
    } else {
        vec![
            ColorFormat::Abgr2101010,
            ColorFormat::Argb2101010,
            ColorFormat::Abgr8888,
            ColorFormat::Argb8888,
        ]
    }
}

/// Forgets a disconnected connector if it was set aside as non-desktop;
/// returns whether it was (otherwise the caller drops the CRTC's surface).
/// Connectors and CRTCs are named by their DRM handles.
pub fn remove_non_desktop_connector(non_desktop: &mut Vec<(u32, u32)>, connector: u32) -> (r: bool)
    ensures
        r == (exists|i: int| 0 <= i < old(non_desktop)@.len() && old(non_desktop)@[i].0 == connector),
        !r ==> final(non_desktop)@ == old(non_desktop)@,
        r ==> exists|i: int|
            0 <= i < old(non_desktop)@.len() && old(non_desktop)@[i].0 == connector
                && (forall|j: int| 0 <= j < i ==> old(non_desktop)@[j].0 != connector)
                && final(non_desktop)@ == old(non_desktop)@.remove(i),
{
    let mut i: usize = 0;
    while i < non_desktop.len()
        invariant
            0 <= i <= non_desktop@.len(),
            non_desktop@ == old(non_desktop)@,
            forall|j: int| 0 <= j < i ==> non_desktop@[j].0 != connector,
        decreases non_desktop@.len() - i,
    {
        if non_desktop[i].0 == connector {
            non_desktop.remove(i);
            return true;
        }
        i = i + 1;
    }
    false
}

/// Whether a connector is non-desktop, from its properties as (name,
/// boolean value) pairs: the first property named `non-desktop` decides,
/// and one without a boolean value, or no such property, means it is not.
pub open spec fn spec_non_desktop(props: Seq<(Seq<char>, Option<bool>)>) -> bool
    decreases props.len(),
{
    if props.len() == 0 {
        false
    } else if props[0].0 == "non-desktop"@ {
        props[0].1 == Some(true)
    } else {
        spec_non_desktop(props.drop_first())
    }
}

/// The properties as the spec reads them.
pub open spec fn property_view(props: Seq<(String, Option<bool>)>) -> Seq<(Seq<char>, Option<bool>)> {
    props.map_values(|p: (String, Option<bool>)| (p.0@, p.1))
}

/// Whether a connector is non-desktop (and so set aside for leasing).
pub fn is_non_desktop(props: &[(String, Option<bool>)]) -> (r: bool)
    ensures
        r == spec_non_desktop(property_view(props@)),
{
    let ghost all = property_view(props@);
    let mut i: usize = 0;
    assert(all.skip(0) =~= all);
    while i < props.len()
        invariant
            0 <= i <= props@.len(),
            all == property_view(props@),
            spec_non_desktop(all) == spec_non_desktop(all.skip(i as int)),
        decreases props@.len() - i,
    {
        let ghost rest = all.skip(i as int);
        assert(rest[0] == all[i as int]);
        assert(rest.drop_first() =~= all.skip(i + 1));
        if crate::encodable_value::str_eq(props[i].0.as_str(), "non-desktop") {
            return props[i].1 == Some(true);
        }
        i = i + 1;
    }
    assert(all.skip(i as int).len() == 0);
    false
}

} // verus!
