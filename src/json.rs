//! The view of a parsed JSON document that the decoders work on.
//!
//! Documents are `serde_json::Value`s, opaque to the verifier. Their contents
//! are described by `JsonModel`, and each accessor below states what it reads
//! in terms of that model.
use vstd::prelude::*;

verus! {

#[verifier::external_type_specification]
#[verifier::external_body]
pub struct ExValue(serde_json::Value);

#[verifier::external_type_specification]
#[verifier::external_body]
pub struct ExNumber(serde_json::Number);

/// What a JSON document holds: its kind, and the contents of that kind.
/// A number is kept as the parser's own number, since its value is carried
/// through untouched.
pub enum JsonModel {
    Null,
    Bool(bool),
    Num(serde_json::Number),
    Str(Seq<char>),
    Array(Seq<JsonModel>),
    Object(Map<Seq<char>, JsonModel>),
}

/// The contents of a parsed document.
pub uninterp spec fn json_model(v: serde_json::Value) -> JsonModel;

/// The integer a number stands for, when it is one that fits an `i64`.
pub uninterp spec fn integer_of(n: serde_json::Number) -> Option<i64>;

/// The compact JSON text of a document.
pub uninterp spec fn json_text(v: serde_json::Value) -> Seq<char>;

/// The member of an object under `key`; nothing for a missing key or a value
/// that is not an object.
pub open spec fn member_of(j: JsonModel, key: Seq<char>) -> Option<JsonModel> {
    match j {
        JsonModel::Object(m) => if m.contains_key(key) {
            Some(m[key])
        } else {
            None
        },
        _ => None,
    }
}

/// Relies on `serde_json::Value::get` with a string key, which looks the key
/// up in an object and finds nothing in any other kind of value.
#[verifier::external_body]
pub(crate) fn member<'a>(v: &'a serde_json::Value, key: &str) -> (r: Option<&'a serde_json::Value>)
    ensures
        r is None <==> member_of(json_model(*v), key@) is None,
        r is Some ==> member_of(json_model(*v), key@) == Some(json_model(*(r->0))),
{
    v.get(key)
}

/// Relies on `serde_json::Value::as_bool`: the boolean of a `Bool` value.
#[verifier::external_body]
pub(crate) fn as_bool(v: &serde_json::Value) -> (r: Option<bool>)
    ensures
        r == (match json_model(*v) {
            JsonModel::Bool(b) => Some(b),
            _ => None::<bool>,
        }),
{
    v.as_bool()
}

/// Relies on `serde_json::Value::as_str`: the text of a `String` value.
#[verifier::external_body]
pub(crate) fn as_string(v: &serde_json::Value) -> (r: Option<String>)
    ensures
        match json_model(*v) {
            JsonModel::Str(s) => r is Some && r->0@ == s,
            _ => r is None,
        },
{
    v.as_str().map(|s| s.to_string())
}

/// Relies on `serde_json::Value::as_number`: the number of a `Number` value.
#[verifier::external_body]
pub(crate) fn as_number(v: &serde_json::Value) -> (r: Option<serde_json::Number>)
    ensures
        r == (match json_model(*v) {
            JsonModel::Num(n) => Some(n),
            _ => None::<serde_json::Number>,
        }),
{
    v.as_number().cloned()
}

/// Relies on `serde_json::Value::as_i64`, which hands a `Number` value on to
/// `serde_json::Number::as_i64`.
#[verifier::external_body]
pub(crate) fn as_i64(v: &serde_json::Value) -> (r: Option<i64>)
    ensures
        r == (match json_model(*v) {
            JsonModel::Num(n) => integer_of(n),
            _ => None::<i64>,
        }),
{
    v.as_i64()
}

/// Relies on `serde_json::Value::as_array`: the elements of an `Array` value,
/// in order.
#[verifier::external_body]
pub(crate) fn as_array(v: &serde_json::Value) -> (r: Option<&Vec<serde_json::Value>>)
    ensures
        match json_model(*v) {
            JsonModel::Array(s) => r is Some && r->0@.len() == s.len() && forall|i: int|
                0 <= i < s.len() ==> #[trigger] json_model(r->0@[i]) == s[i],
            _ => r is None,
        },
{
    v.as_array()
}

/// Relies on `serde_json::Value::is_null`.
#[verifier::external_body]
pub(crate) fn is_null(v: &serde_json::Value) -> (r: bool)
    ensures
        r == (json_model(*v) is Null),
{
    v.is_null()
}

/// Relies on `serde_json::Value::is_object`.
#[verifier::external_body]
pub(crate) fn is_object(v: &serde_json::Value) -> (r: bool)
    ensures
        r == (json_model(*v) is Object),
{
    v.is_object()
}

/// Relies on the `Display` impl of `serde_json::Value`, which writes the
/// compact JSON text of the value.
#[verifier::external_body]
pub(crate) fn render(v: &serde_json::Value) -> (r: String)
    ensures
        r@ == json_text(*v),
{
    v.to_string()
}

/// A text field: present when the member is a JSON string.
pub open spec fn text_at(j: JsonModel, key: Seq<char>, f: Option<String>) -> bool {
    match member_of(j, key) {
        Some(JsonModel::Str(s)) => f is Some && f->0@ == s,
        _ => f is None,
    }
}

/// A number field, carried as written: present when the member is a number.
pub open spec fn number_at(j: JsonModel, key: Seq<char>) -> Option<serde_json::Number> {
    match member_of(j, key) {
        Some(JsonModel::Num(n)) => Some(n),
        _ => None,
    }
}

/// An integer field: present when the member is a number that is an `i64`.
pub open spec fn integer_at(j: JsonModel, key: Seq<char>) -> Option<i64> {
    match member_of(j, key) {
        Some(JsonModel::Num(n)) => integer_of(n),
        _ => None,
    }
}

/// A strict boolean field: present when the member is a JSON boolean.
pub open spec fn flag_at(j: JsonModel, key: Seq<char>) -> Option<bool> {
    match member_of(j, key) {
        Some(JsonModel::Bool(b)) => Some(b),
        _ => None,
    }
}

/// Reads the text member `key` of `v`; any other kind of member reads as absent.
pub fn text_field(v: &serde_json::Value, key: &str) -> (r: Option<String>)
    ensures
        text_at(json_model(*v), key@, r),
{
    match member(v, key) {
        Some(m) => as_string(m),
        None => None,
    }
}

/// Reads the number member `key` of `v`; any other kind of member reads as absent.
pub fn number_field(v: &serde_json::Value, key: &str) -> (r: Option<serde_json::Number>)
    ensures
        r == number_at(json_model(*v), key@),
{
    match member(v, key) {
        Some(m) => as_number(m),
        None => None,
    }
}

/// Reads the integer member `key` of `v`; a fractional or out-of-range number,
/// or a member of another kind, reads as absent.
pub fn integer_field(v: &serde_json::Value, key: &str) -> (r: Option<i64>)
    ensures
        r == integer_at(json_model(*v), key@),
{
    match member(v, key) {
        Some(m) => as_i64(m),
        None => None,
    }
}

/// Reads the boolean member `key` of `v`; any other kind of member reads as absent.
pub fn flag_field(v: &serde_json::Value, key: &str) -> (r: Option<bool>)
    ensures
        r == flag_at(json_model(*v), key@),
{
    match member(v, key) {
        Some(m) => as_bool(m),
        None => None,
    }
}

} // verus!
