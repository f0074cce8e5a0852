//! JSON documents. `serde_json::Value` is carried through the library as
//! an opaque value; what it holds is named by `json_view`, a tree of
//! mathematical values, and every access goes through a small trusted
//! wrapper whose contract is stated over that tree.

use vstd::prelude::*;

verus! {

#[verifier::external_type_specification]
#[verifier::external_body]
pub struct ExJsonValue(serde_json::Value);

#[verifier::external_type_specification]
#[verifier::external_body]
pub struct ExJsonError(serde_json::Error);

/// A JSON document as a mathematical tree. Integers keep their value,
/// floating-point numbers their bit pattern; objects are maps from keys.
pub enum JsonView {
    Null,
    Bool(bool),
    Int(int),
    Float(u64),
    Str(Seq<char>),
    Array(Seq<JsonView>),
    Object(Map<Seq<char>, JsonView>),
}

/// What a `serde_json::Value` holds.
pub uninterp spec fn json_view(v: serde_json::Value) -> JsonView;

/// What `serde_json::from_str` makes of a text, when it is valid JSON.
pub uninterp spec fn parsed_json(text: Seq<char>) -> Option<JsonView>;

/// What `serde_json::to_string_pretty` writes for a document.
pub uninterp spec fn pretty_json(doc: JsonView) -> Seq<char>;

/// The member `key` of an object; nothing for other values.
pub open spec fn view_get(j: JsonView, key: Seq<char>) -> Option<JsonView> {
    match j {
        JsonView::Object(m) => if m.contains_key(key) {
            Some(m[key])
        } else {
            None
        },
        _ => None,
    }
}

/// `view_get` applied to an optional value.
pub open spec fn opt_get(j: Option<JsonView>, key: Seq<char>) -> Option<JsonView> {
    match j {
        Some(v) => view_get(v, key),
        None => None,
    }
}

/// The text of a string value.
pub open spec fn view_str(j: JsonView) -> Option<Seq<char>> {
    match j {
        JsonView::Str(s) => Some(s),
        _ => None,
    }
}

/// `view_str` applied to an optional value.
pub open spec fn opt_str(j: Option<JsonView>) -> Option<Seq<char>> {
    match j {
        Some(v) => view_str(v),
        None => None,
    }
}

/// An integer value that fits in an `i64`.
pub open spec fn view_i64(j: JsonView) -> Option<i64> {
    match j {
        JsonView::Int(n) => if i64::MIN <= n <= i64::MAX {
            Some(n as i64)
        } else {
            None
        },
        _ => None,
    }
}

/// A non-negative integer value that fits in a `u64`.
pub open spec fn view_u64(j: JsonView) -> Option<u64> {
    match j {
        JsonView::Int(n) => if 0 <= n <= u64::MAX {
            Some(n as u64)
        } else {
            None
        },
        _ => None,
    }
}

/// The elements of an array value.
pub open spec fn view_array(j: JsonView) -> Option<Seq<JsonView>> {
    match j {
        JsonView::Array(xs) => Some(xs),
        _ => None,
    }
}

/// `view_array` applied to an optional value.
pub open spec fn opt_array(j: Option<JsonView>) -> Option<Seq<JsonView>> {
    match j {
        Some(v) => view_array(v),
        None => None,
    }
}

/// The view of an optional reference to a value.
pub open spec fn opt_view(r: Option<&serde_json::Value>) -> Option<JsonView> {
    match r {
        Some(v) => Some(json_view(*v)),
        None => None,
    }
}

/// The views of a vector of values.
pub open spec fn views_of(vs: Seq<serde_json::Value>) -> Seq<JsonView> {
    vs.map_values(|v: serde_json::Value| json_view(v))
}

/// The object that inserting `entries` in order builds: a later entry
/// replaces an earlier one with the same key.
pub open spec fn object_of(entries: Seq<(Seq<char>, JsonView)>) -> Map<Seq<char>, JsonView>
    decreases entries.len(),
{
    if entries.len() == 0 {
        Map::empty()
    } else {
        object_of(entries.drop_last()).insert(entries.last().0, entries.last().1)
    }
}

/// The keys and views of a vector of object entries.
pub open spec fn entries_view(es: Seq<(String, serde_json::Value)>) -> Seq<(Seq<char>, JsonView)> {
    es.map_values(|e: (String, serde_json::Value)| (e.0@, json_view(e.1)))
}

/// A JSON pointer with two reference tokens, `/a/b`.
pub open spec fn pointer_path(a: Seq<char>, b: Seq<char>) -> Seq<char> {
    seq!['/'] + a + seq!['/'] + b
}

/// A pointer token with no `/` or `~` in it and at least one character
/// that is not an ASCII digit (so it can never index an array).
pub open spec fn plain_token(t: Seq<char>) -> bool {
    &&& forall|i: int| 0 <= i < t.len() ==> t[i] != '/' && t[i] != '~'
    &&& exists|i: int| 0 <= i < t.len() && !('0' <= #[trigger] t[i] <= '9')
}

/// Calls `serde_json::from_str` for a `Value`. It succeeds exactly on the
/// texts that `parsed_json` holds a document for, and gives that document.
#[verifier::external_body]
pub(crate) fn parse_json(text: &str) -> (r: Result<serde_json::Value, serde_json::Error>)
    ensures
        r is Ok <==> parsed_json(text@) is Some,
        r matches Ok(v) ==> parsed_json(text@) == Some(json_view(v)),
{
    serde_json::from_str(text)
}

/// Calls `Display` on a `serde_json::Error`; nothing is stated of the text.
#[verifier::external_body]
pub(crate) fn json_error_text(e: &serde_json::Error) -> String {
    e.to_string()
}

/// Calls `serde_json::to_string_pretty` on a `Value`: the text that
/// `pretty_json` names for the document. It succeeds: serialization fails
/// only when a `Serialize` impl decides to or a map has non-string keys,
/// and a `Value`'s maps have string keys and its impl passes on only the
/// writer's errors, which writing into memory does not raise.
#[verifier::external_body]
pub(crate) fn to_pretty_text(v: &serde_json::Value) -> (r: Result<String, serde_json::Error>)
    ensures
        r is Ok,
        r matches Ok(t) ==> t@ == pretty_json(json_view(*v)),
{
    serde_json::to_string_pretty(v)
}

/// Calls `Value::get` with a string key: the member of an object, nothing
/// for any other value.
#[verifier::external_body]
pub(crate) fn get<'a>(v: &'a serde_json::Value, key: &str) -> (r: Option<&'a serde_json::Value>)
    ensures
        opt_view(r) == view_get(json_view(*v), key@),
{
    v.get(key)
}

/// Calls `Value::pointer`. For a pointer `/a/b` whose tokens are plain
/// (no `/`, no `~`, not an array index) it is two object lookups in turn;
/// nothing is stated for other pointers.
#[verifier::external_body]
pub(crate) fn pointer<'a>(v: &'a serde_json::Value, p: &str) -> (r: Option<&'a serde_json::Value>)
    ensures
        forall|a: Seq<char>, b: Seq<char>|
            #![trigger pointer_path(a, b)]
            p@ == pointer_path(a, b) && plain_token(a) && plain_token(b) ==> opt_view(r)
                == opt_get(view_get(json_view(*v), a), b),
{
    v.pointer(p)
}

/// Calls `Value::as_str`: the text of a string value, nothing otherwise.
#[verifier::external_body]
pub(crate) fn as_str<'a>(v: &'a serde_json::Value) -> (r: Option<&'a str>)
    ensures
        match r {
            Some(s) => view_str(json_view(*v)) == Some(s@),
            None => view_str(json_view(*v)) is None,
        },
{
    v.as_str()
}

/// Calls `Value::as_i64`: an integer that fits in an `i64`, nothing otherwise.
#[verifier::external_body]
pub(crate) fn as_i64(v: &serde_json::Value) -> (r: Option<i64>)
    ensures
        r == view_i64(json_view(*v)),
{
    v.as_i64()
}

/// Calls `Value::as_u64`: a non-negative integer that fits in a `u64`.
#[verifier::external_body]
pub(crate) fn as_u64(v: &serde_json::Value) -> (r: Option<u64>)
    ensures
        r == view_u64(json_view(*v)),
{
    v.as_u64()
}

/// Calls `Value::as_array`: the elements of an array, nothing otherwise.
#[verifier::external_body]
pub(crate) fn as_array<'a>(v: &'a serde_json::Value) -> (r: Option<&'a Vec<serde_json::Value>>)
    ensures
        match r {
            Some(a) => view_array(json_view(*v)) == Some(views_of(a@)),
            None => view_array(json_view(*v)) is None,
        },
{
    v.as_array()
}

/// Calls `Value::is_null`.
#[verifier::external_body]
pub(crate) fn is_null(v: &serde_json::Value) -> (r: bool)
    ensures
        r == (json_view(*v) == JsonView::Null),
{
    v.is_null()
}

/// Calls `Value::clone`, which copies the whole document.
#[verifier::external_body]
pub(crate) fn clone_value(v: &serde_json::Value) -> (r: serde_json::Value)
    ensures
        json_view(r) == json_view(*v),
{
    v.clone()
}

/// Makes `Value::Null`.
#[verifier::external_body]
pub(crate) fn null() -> (r: serde_json::Value)
    ensures
        json_view(r) == JsonView::Null,
{
    serde_json::Value::Null
}

/// Makes `Value::String`.
#[verifier::external_body]
pub(crate) fn string(s: String) -> (r: serde_json::Value)
    ensures
        json_view(r) == JsonView::Str(s@),
{
    serde_json::Value::String(s)
}

/// Calls `Value::from` for an `i64`, which makes an integer number.
#[verifier::external_body]
pub(crate) fn integer(n: i64) -> (r: serde_json::Value)
    ensures
        json_view(r) == JsonView::Int(n as int),
{
    serde_json::Value::from(n)
}

/// Makes `Value::Array` from its elements.
#[verifier::external_body]
pub(crate) fn array(items: Vec<serde_json::Value>) -> (r: serde_json::Value)
    ensures
        json_view(r) == JsonView::Array(views_of(items@)),
{
    serde_json::Value::Array(items)
}

/// Makes `Value::Object` by collecting `entries` into a `serde_json::Map`,
/// in which a later entry replaces an earlier one with the same key.
#[verifier::external_body]
pub(crate) fn object(entries: Vec<(String, serde_json::Value)>) -> (r: serde_json::Value)
    ensures
        json_view(r) == JsonView::Object(object_of(entries_view(entries@))),
{
    serde_json::Value::Object(entries.into_iter().collect())
}

} // verus!
