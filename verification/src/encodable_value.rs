//! Values of Flutter's standard message codec, as the compositor builds and
//! reads them.
use vstd::prelude::*;

verus! {

/// A value of Flutter's standard message codec. A double is held as its
/// IEEE-754 bit pattern (`f64::to_bits`).
#[derive(Debug, PartialEq)]
pub enum EncodableValue {
    Null,
    Bool(bool),
    Int32(i32),
    Int64(i64),
    Double(u64),
    String(String),
    List(Vec<EncodableValue>),
    Mapping(Vec<(EncodableValue, EncodableValue)>),
}

/// The mathematical value of an [`EncodableValue`]: strings become sequences
/// of characters and lists and maps sequences.
#[verifier::ext_equal]
pub enum Encodable {
    Null,
    Bool(bool),
    Int32(i32),
    Int64(i64),
    Double(u64),
    Str(Seq<char>),
    List(Seq<Encodable>),
    Mapping(Seq<(Encodable, Encodable)>),
}

/// The values of a list, element by element.
pub open spec fn list_view(s: Seq<EncodableValue>) -> Seq<Encodable>
    decreases s,
{
    if s.len() == 0 {
        Seq::empty()
    } else {
        list_view(s.drop_last()).push(s.last().deep())
    }
}

/// The entries of a map, entry by entry.
pub open spec fn entries_view(s: Seq<(EncodableValue, EncodableValue)>) -> Seq<(Encodable, Encodable)>
    decreases s,
{
    if s.len() == 0 {
        Seq::empty()
    } else {
        entries_view(s.drop_last()).push((s.last().0.deep(), s.last().1.deep()))
    }
}

impl EncodableValue {
    /// The mathematical value.
    pub open spec fn deep(&self) -> Encodable
        decreases self,
    {
        match self {
            EncodableValue::Null => Encodable::Null,
            EncodableValue::Bool(b) => Encodable::Bool(*b),
            EncodableValue::Int32(v) => Encodable::Int32(*v),
            EncodableValue::Int64(v) => Encodable::Int64(*v),
            EncodableValue::Double(v) => Encodable::Double(*v),
            EncodableValue::String(s) => Encodable::Str(s@),
            EncodableValue::List(v) => Encodable::List(list_view(v@)),
            EncodableValue::Mapping(v) => Encodable::Mapping(entries_view(v@)),
        }
    }

    /// The integer held, whether 32 or 64 bits wide.
    pub open spec fn spec_long_value(&self) -> Option<i64> {
        match self {
            EncodableValue::Int32(v) => Some(*v as i64),
            EncodableValue::Int64(v) => Some(*v),
            _ => None,
        }
    }

    /// The integer held, whether 32 or 64 bits wide; `None` for any other value.
    pub fn long_value(&self) -> (r: Option<i64>)
        ensures
            r == self.spec_long_value(),
    {
        match self {
            EncodableValue::Int32(v) => Some(*v as i64),
            EncodableValue::Int64(v) => Some(*v),
            _ => None,
        }
    }
}

/// A list value has one element per element of the list, in order.
pub proof fn lemma_list_view(s: Seq<EncodableValue>)
    ensures
        list_view(s).len() == s.len(),
        forall|i: int| 0 <= i < s.len() ==> #[trigger] list_view(s)[i] == s[i].deep(),
    decreases s.len(),
{
    if s.len() > 0 {
        lemma_list_view(s.drop_last());
    }
}

/// A map value has one entry per entry of the map, in order.
pub proof fn lemma_entries_view(s: Seq<(EncodableValue, EncodableValue)>)
    ensures
        entries_view(s).len() == s.len(),
        forall|i: int|
            0 <= i < s.len() ==> #[trigger] entries_view(s)[i] == (s[i].0.deep(), s[i].1.deep()),
    decreases s.len(),
{
    if s.len() > 0 {
        lemma_entries_view(s.drop_last());
    }
}

/// A map entry whose key is a string.
pub open spec fn entry(key: Seq<char>, value: Encodable) -> (Encodable, Encodable) {
    (Encodable::Str(key), value)
}

/// A map entry whose key is the string `key`.
pub fn string_entry(key: &str, value: EncodableValue) -> (r: (EncodableValue, EncodableValue))
    ensures
        r.0.deep() == Encodable::Str(key@),
        r.1 == value,
{
    (EncodableValue::String(key.to_owned()), value)
}

/// A map value.
pub fn mapping(entries: Vec<(EncodableValue, EncodableValue)>) -> (r: EncodableValue)
    ensures
        r.deep() == Encodable::Mapping(
            Seq::new(entries@.len(), |i: int| (entries@[i].0.deep(), entries@[i].1.deep())),
        ),
{
    proof {
        lemma_entries_view(entries@);
        assert(entries_view(entries@) =~= Seq::new(
            entries@.len(),
            |i: int| (entries@[i].0.deep(), entries@[i].1.deep()),
        ));
    }
    EncodableValue::Mapping(entries)
}

/// Whether two strings hold the same characters.
pub fn str_eq(a: &str, b: &str) -> (r: bool)
    ensures
        r == (a@ == b@),
{
    a.to_owned() == b.to_owned()
}

/// A string value.
pub fn string_value(s: &str) -> (r: EncodableValue)
    ensures
        r.deep() == Encodable::Str(s@),
{
    EncodableValue::String(s.to_owned())
}

} // verus!
