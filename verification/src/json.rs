//! The JSON values that travel between the client and the TV.
//!
//! The values themselves are `serde_json::Value`s, opaque to Verus. Each
//! serde_json operation that the client uses is reached through one wrapper
//! below, and each result is named by an uninterpreted spec function, so that
//! the contracts of the rest of the crate can say exactly which JSON value is
//! built or read.
use serde_json::Value;
use vstd::prelude::*;

verus! {

#[verifier::external_type_specification]
#[verifier::external_body]
pub struct ExValue(serde_json::Value);

#[verifier::external_type_specification]
#[verifier::external_body]
pub struct ExJsonError(serde_json::Error);

/// The JSON string `Value::String(s)`.
pub uninterp spec fn json_string(s: Seq<char>) -> Value;

/// The JSON boolean `Value::Bool(b)`.
pub uninterp spec fn json_bool(b: bool) -> Value;

/// The JSON number that serde_json makes of an `i8`.
pub uninterp spec fn json_i8(n: i8) -> Value;

/// The JSON array whose items are `items`, in order.
pub uninterp spec fn json_array(items: Seq<Value>) -> Value;

/// The JSON object collected from the key/value pairs `entries`.
pub uninterp spec fn json_object(entries: Seq<(Seq<char>, Value)>) -> Value;

/// What `value[key]` reads: the member named `key` of an object, and null
/// when there is none or `value` is no object.
pub uninterp spec fn json_field(value: Value, key: Seq<char>) -> Value;

/// What `value.as_str()` gives: the text of a JSON string, `None` for any other value.
pub uninterp spec fn json_str_of(value: Value) -> Option<Seq<char>>;

/// Whether `value.is_object()`.
pub uninterp spec fn json_is_object(value: Value) -> bool;

/// Whether `value.is_null()`.
pub uninterp spec fn json_is_null(value: Value) -> bool;

/// The value that `value[key] = field` leaves behind.
pub uninterp spec fn json_with_field(value: Value, key: Seq<char>, field: Value) -> Value;

/// The compact JSON text that `Display` writes for `value`.
pub uninterp spec fn json_text(value: Value) -> Seq<char>;

/// The value that `serde_json::from_str::<Value>` reads from `text`, `None` where it fails.
pub uninterp spec fn json_parse(text: Seq<char>) -> Option<Value>;

/// A member of an object, or a value stored in a `Value`, can be indexed by a key
/// for writing: it is an object, or null (which serde_json turns into an empty object).
pub open spec fn json_key_writable(value: Value) -> bool {
    json_is_object(value) || json_is_null(value)
}

/// `Value::from(String)`: the JSON string holding `s`; `as_str` gives `s` back.
#[verifier::external_body]
pub(crate) fn value_from_string(s: String) -> (res: Value)
    ensures
        res == json_string(s@),
        json_str_of(res) == Some(s@),
        !json_is_object(res),
        !json_is_null(res),
{
    Value::from(s)
}

/// `Value::from(bool)`: the JSON boolean `b`.
#[verifier::external_body]
pub(crate) fn value_from_bool(b: bool) -> (res: Value)
    ensures
        res == json_bool(b),
        json_str_of(res) is None,
{
    Value::from(b)
}

/// `Value::from(i8)`: the JSON number `n`.
#[verifier::external_body]
pub(crate) fn value_from_i8(n: i8) -> (res: Value)
    ensures
        res == json_i8(n),
        json_str_of(res) is None,
{
    Value::from(n)
}

/// `Value::from(Vec<Value>)`: the JSON array of `items`.
#[verifier::external_body]
pub(crate) fn value_from_vec(items: Vec<Value>) -> (res: Value)
    ensures
        res == json_array(items@),
        json_str_of(res) is None,
{
    Value::from(items)
}

/// The spec-level key/value pairs of a vector of entries.
pub open spec fn entries_view(entries: Seq<(String, Value)>) -> Seq<(Seq<char>, Value)> {
    entries.map_values(|e: (String, Value)| (e.0@, e.1))
}

/// `Value`'s `FromIterator<(String, Value)>`: the JSON object made of `entries`.
#[verifier::external_body]
pub(crate) fn value_from_entries(entries: Vec<(String, Value)>) -> (res: Value)
    ensures
        res == json_object(entries_view(entries@)),
        json_is_object(res),
        json_str_of(res) is None,
{
    entries.into_iter().collect()
}

/// `value[key]` (`Index<&str>`): the member `key` of an object, or null.
#[verifier::external_body]
pub(crate) fn value_field<'a>(value: &'a Value, key: &str) -> (res: &'a Value)
    ensures
        *res == json_field(*value, key@),
{
    &value[key]
}

/// `Value::as_str`.
#[verifier::external_body]
pub(crate) fn value_as_str(value: &Value) -> (res: Option<&str>)
    ensures
        res is Some <==> json_str_of(*value) is Some,
        res matches Some(s) ==> json_str_of(*value) == Some(s@),
{
    value.as_str()
}

/// `PartialEq<&str> for Value`: whether `value` is the JSON string `text`.
#[verifier::external_body]
pub(crate) fn value_eq_str(value: &Value, text: &str) -> (res: bool)
    ensures
        res == (json_str_of(*value) == Some(text@)),
{
    *value == text
}

/// `Value::is_object`.
#[verifier::external_body]
pub(crate) fn value_is_object(value: &Value) -> (res: bool)
    ensures
        res == json_is_object(*value),
{
    value.is_object()
}

/// `Value::is_null`.
#[verifier::external_body]
pub(crate) fn value_is_null(value: &Value) -> (res: bool)
    ensures
        res == json_is_null(*value),
{
    value.is_null()
}

/// `value[key] = field` (`IndexMut<&str>`). serde_json panics unless `value` is
/// an object or null; afterwards `value` is an object whose member `key` is
/// `field` and whose other members are unchanged.
#[verifier::external_body]
pub(crate) fn value_set_field(value: &mut Value, key: &str, field: Value)
    requires
        json_key_writable(*old(value)),
    ensures
        *final(value) == json_with_field(*old(value), key@, field),
        json_is_object(*final(value)),
        json_field(*final(value), key@) == field,
        forall|other: Seq<char>|
            other != key@ ==> json_field(*final(value), other) == #[trigger] json_field(
                *old(value),
                other,
            ),
{
    value[key] = field;
}

/// `Value::clone`: an equal value.
#[verifier::external_body]
pub(crate) fn value_clone(value: &Value) -> (res: Value)
    ensures
        res == *value,
{
    value.clone()
}

/// `Value`'s `Display`, through `to_string`: the compact JSON text of `value`.
#[verifier::external_body]
pub(crate) fn value_to_text(value: &Value) -> (res: String)
    ensures
        res@ == json_text(*value),
{
    value.to_string()
}

/// `serde_json::from_str::<Value>`: reads a JSON value from `text`.
#[verifier::external_body]
pub(crate) fn parse_value(text: &str) -> (res: Result<Value, serde_json::Error>)
    ensures
        res is Ok <==> json_parse(text@) is Some,
        res matches Ok(v) ==> json_parse(text@) == Some(v),
{
    serde_json::from_str::<Value>(text)
}

} // verus!
