//! Reading the members of a JSON object.
//!
//! A `serde_json::Value` is opaque to the verifier.  What decoding reads from
//! one has a name here: what kind of value it is, and which member it holds
//! under a key.  The four methods of `serde_json` that answer these questions
//! are taken on trust, each as returning what its documentation says in terms
//! of those two names; everything built on them is verified.

use vstd::prelude::*;

verus! {

/// `serde_json::Value`, carried as it is; what is read from one goes by the
/// names below.
#[verifier::external_type_specification]
#[verifier::external_body]
pub struct ExValue(serde_json::Value);

/// What a JSON value is, as far as decoding tells values apart.
pub enum JsonKind {
    /// A number that is a non-negative integer below 2^64.
    Number(u64),
    /// A string, with its characters.
    Text(Seq<char>),
    /// An object.
    Object,
    /// Anything else: `null`, a boolean, a negative or fractional number, an
    /// array.
    Other,
}

/// The kind of the value `v`.  It is what `is_object`, `as_u64` and `as_str`
/// of `serde_json::Value` tell of `v`: each of them looks at the variant of
/// the value and at nothing else, and no value is more than one of a number,
/// a string and an object.
pub uninterp spec fn json_kind(v: serde_json::Value) -> JsonKind;

/// The member that `v` holds under `key`: what `serde_json::Value::get`
/// returns for `v` and a string index.
pub uninterp spec fn json_member(v: serde_json::Value, key: Seq<char>) -> Option<serde_json::Value>;

/// The characters of an optional string slice.
pub open spec fn slice_chars(s: Option<&str>) -> Option<Seq<char>> {
    match s {
        Some(t) => Some(t@),
        None => None,
    }
}

/// `serde_json::Value::is_object` is `true` for an object and `false` for
/// every other value.
pub assume_specification[ serde_json::Value::is_object ](v: &serde_json::Value) -> (r: bool)
    ensures
        r == (json_kind(*v) is Object),
;

/// `serde_json::Value::as_u64` gives the number where the value is a number
/// that is a non-negative integer below 2^64, and `None` for every other
/// value.
pub assume_specification[ serde_json::Value::as_u64 ](v: &serde_json::Value) -> (r: Option<u64>)
    ensures
        r == (match json_kind(*v) {
            JsonKind::Number(n) => Some(n),
            _ => None,
        }),
;

/// `serde_json::Value::as_str` gives the contents where the value is a
/// string, and `None` for every other value.
pub assume_specification[ serde_json::Value::as_str ](v: &serde_json::Value) -> (r: Option<&str>)
    ensures
        slice_chars(r) == (match json_kind(*v) {
            JsonKind::Text(text) => Some(text),
            _ => None,
        }),
;

/// `serde_json::Value::get` with a string index: the entry that an object
/// holds under `key`, `None` where it holds none or `v` is no object.  The
/// answer depends on the value and the key alone.
#[verifier::external_body]
fn get<'a>(v: &'a serde_json::Value, key: &str) -> (r: Option<&'a serde_json::Value>)
    ensures
        match r {
            Some(entry) => json_member(*v, key@) == Some(*entry),
            None => json_member(*v, key@) is None,
        },
{
    v.get(key)
}

/// What a lookup in a JSON object finds under one key, as far as decoding
/// tells members apart.
#[derive(Debug, Clone, Copy)]
pub enum Member<'a> {
    /// The object has no such key.
    Absent,
    /// A number that is a non-negative integer below 2^64.
    Number(u64),
    /// A JSON string.
    Text(&'a str),
    /// Any other value: `null`, a boolean, a negative or fractional number,
    /// an array, an object.
    Other,
}

/// The mathematical image of a [`Member`].
pub enum MemberView {
    Absent,
    Number(u64),
    Text(Seq<char>),
    Other,
}

impl<'a> View for Member<'a> {
    type V = MemberView;

    open spec fn view(&self) -> MemberView {
        match self {
            Member::Absent => MemberView::Absent,
            Member::Number(n) => MemberView::Number(*n),
            Member::Text(s) => MemberView::Text(s@),
            Member::Other => MemberView::Other,
        }
    }
}

/// The member of `v` under `key`: absent where `v` holds nothing under the
/// key, else the number or the text that the entry is, else `Other`.
pub open spec fn member_of(v: serde_json::Value, key: Seq<char>) -> MemberView {
    match json_member(v, key) {
        None => MemberView::Absent,
        Some(entry) => match json_kind(entry) {
            JsonKind::Number(n) => MemberView::Number(n),
            JsonKind::Text(text) => MemberView::Text(text),
            _ => MemberView::Other,
        },
    }
}

/// Looks `key` up in `v`.
pub fn member<'a>(v: &'a serde_json::Value, key: &str) -> (m: Member<'a>)
    ensures
        m@ == member_of(*v, key@),
{
    match get(v, key) {
        None => Member::Absent,
        Some(entry) => match entry.as_u64() {
            Some(n) => Member::Number(n),
            None => match entry.as_str() {
                Some(s) => Member::Text(s),
                None => Member::Other,
            },
        },
    }
}

} // verus!
