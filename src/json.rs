//! The JSON values that carry the protocol, through serde_json.
use vstd::prelude::*;
use serde_json::Value;

verus! {

/// serde_json's `Value`, a JSON document, held as an opaque value.
#[verifier::external_type_specification]
#[verifier::external_body]
pub struct ExValue(serde_json::Value);

/// What `serde_json::from_str::<Value>` makes of a text (`None` where it refuses it).
pub uninterp spec fn json_parse(s: Seq<char>) -> Option<Value>;

/// The compact JSON text that serde_json writes for a value.
pub uninterp spec fn json_render(v: Value) -> Seq<char>;

/// What `Value::get` returns for a string key.
pub uninterp spec fn json_member(v: Value, key: Seq<char>) -> Option<Value>;

/// What `Value::as_str` returns.
pub uninterp spec fn json_as_text(v: Value) -> Option<Seq<char>>;

/// What `Value::as_u64` returns.
pub uninterp spec fn json_as_u64(v: Value) -> Option<u64>;

/// What `Value::as_bool` returns.
pub uninterp spec fn json_as_bool(v: Value) -> Option<bool>;

/// The value that `Value::from` makes of an optional string: a JSON string, or null.
pub uninterp spec fn json_opt_text(s: Option<Seq<char>>) -> Value;

/// The value that `Value::from` makes of a `u64`.
pub uninterp spec fn json_number(n: u64) -> Value;

/// The value `Value::Bool(b)`.
pub uninterp spec fn json_bool(b: bool) -> Value;

/// The JSON object collected from key/value entries.
pub uninterp spec fn json_object(entries: Seq<(Seq<char>, Value)>) -> Value;

/// The optional text behind an optional `String`.
pub open spec fn opt_view(s: Option<String>) -> Option<Seq<char>> {
    match s {
        Some(t) => Some(t@),
        None => None,
    }
}

/// The entries of an object, keys as character sequences.
pub open spec fn entries_view(entries: Seq<(String, Value)>) -> Seq<(Seq<char>, Value)> {
    entries.map_values(|e: (String, Value)| (e.0@, e.1))
}

/// The text member `key` of `v`, if `v` has one.
pub open spec fn member_text(v: Value, key: Seq<char>) -> Option<Seq<char>> {
    match json_member(v, key) {
        Some(m) => json_as_text(m),
        None => None,
    }
}

/// The unsigned integer member `key` of `v`, if `v` has one.
pub open spec fn member_u64(v: Value, key: Seq<char>) -> Option<u64> {
    match json_member(v, key) {
        Some(m) => json_as_u64(m),
        None => None,
    }
}

/// The boolean member `key` of `v`, if `v` has one.
pub open spec fn member_bool(v: Value, key: Seq<char>) -> Option<bool> {
    match json_member(v, key) {
        Some(m) => json_as_bool(m),
        None => None,
    }
}

/// Relies on `serde_json::from_str` to read one JSON value from a text.
#[verifier::external_body]
pub(crate) fn parse(s: &str) -> (r: Option<Value>)
    ensures
        r == json_parse(s@),
{
    serde_json::from_str::<Value>(s).ok()
}

/// Relies on serde_json's `Display` for `Value`, which writes compact JSON text.
#[verifier::external_body]
pub(crate) fn render(v: &Value) -> (r: String)
    ensures
        r@ == json_render(*v),
{
    v.to_string()
}

/// Relies on `Value::get` with a string key: the member of an object, `None`
/// for a missing key or a value that is not an object.
#[verifier::external_body]
pub(crate) fn get_member(v: &Value, key: &str) -> (r: Option<Value>)
    ensures
        r == json_member(*v, key@),
{
    v.get(key).cloned()
}

/// Relies on `Value::as_str`: the text of a JSON string, `None` for any other value.
#[verifier::external_body]
pub(crate) fn as_text(v: &Value) -> (r: Option<String>)
    ensures
        opt_view(r) == json_as_text(*v),
{
    v.as_str().map(|s| s.to_string())
}

/// Relies on `Value::as_u64`: the integer of a JSON number that fits a `u64`.
#[verifier::external_body]
pub(crate) fn as_u64(v: &Value) -> (r: Option<u64>)
    ensures
        r == json_as_u64(*v),
{
    v.as_u64()
}

/// Relies on `Value::as_bool`: the boolean of a JSON boolean.
#[verifier::external_body]
pub(crate) fn as_bool(v: &Value) -> (r: Option<bool>)
    ensures
        r == json_as_bool(*v),
{
    v.as_bool()
}

/// Relies on `Value::from(Option<String>)`: a JSON string for `Some`, null for
/// `None`; `as_str` then gives the text back.
#[verifier::external_body]
pub(crate) fn opt_text_value(s: Option<String>) -> (r: Value)
    ensures
        r == json_opt_text(opt_view(s)),
        json_as_text(r) == opt_view(s),
{
    Value::from(s)
}

/// Relies on `Value::from(u64)`: a JSON number that `as_u64` gives back.
#[verifier::external_body]
pub(crate) fn number_value(n: u64) -> (r: Value)
    ensures
        r == json_number(n),
        json_as_u64(r) == Some(n),
{
    Value::from(n)
}

/// Relies on `Value::Bool`: a JSON boolean that `as_bool` gives back.
#[verifier::external_body]
pub(crate) fn bool_value(b: bool) -> (r: Value)
    ensures
        r == json_bool(b),
        json_as_bool(r) == Some(b),
{
    Value::Bool(b)
}

/// Relies on collecting entries into a `serde_json::Map` and `Value::Object`:
/// with distinct keys, `Value::get` finds each entry's value under its key.
#[verifier::external_body]
pub(crate) fn object_value(entries: Vec<(String, Value)>) -> (r: Value)
    requires
        forall|i: int, j: int|
            0 <= i < j < entries@.len() ==> entries@[i].0@ != entries@[j].0@,
    ensures
        r == json_object(entries_view(entries@)),
        forall|i: int|
            0 <= i < entries@.len() ==> json_member(r, #[trigger] entries@[i].0@) == Some(
                entries@[i].1,
            ),
{
    Value::Object(entries.into_iter().collect())
}

} // verus!
