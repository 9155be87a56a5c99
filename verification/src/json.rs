//! JSON documents as `serde_json` holds them, and what the decoder may
//! assume of that crate.
//!
//! A `serde_json::Value` is opaque to the verifier. [`Json`] is the
//! mathematical tree that such a value stands for, [`json_value`] names the
//! tree of a given value, and each accessor of `serde_json` that the decoder
//! calls is given a contract over that tree. None of these contracts is
//! proved here: they restate what the source of `serde_json` shows.

use vstd::prelude::*;

verus! {

/// A JSON document as a mathematical tree.
pub enum Json {
    Null,
    Bool(bool),
    /// A number that is held as an integer.
    Integer(int),
    /// Any other number.
    Fraction,
    Text(Seq<char>),
    Array(Seq<Json>),
    Object(Map<Seq<char>, Json>),
}

/// `serde_json::Value`, carried as an opaque value.
#[verifier::external_type_specification]
#[verifier::external_body]
pub struct ExValue(serde_json::Value);

/// `serde_json::Error`, carried as an opaque value.
#[verifier::external_type_specification]
#[verifier::external_body]
pub struct ExError(serde_json::Error);

/// The tree that a `serde_json::Value` holds.
pub uninterp spec fn json_value(v: serde_json::Value) -> Json;

/// The tree that `serde_json::from_str` reads from a text, or `None` where
/// it rejects the text.
pub uninterp spec fn parsed_json(text: Seq<char>) -> Option<Json>;

/// The trees of a run of values, in order.
pub open spec fn json_values(items: Seq<serde_json::Value>) -> Seq<Json> {
    items.map_values(|v: serde_json::Value| json_value(v))
}

/// `serde_json::from_str` at type `serde_json::Value`: the result is a
/// function of the text alone. It is `Ok` exactly where [`parsed_json`] is
/// `Some`, and the value then holds that tree.
#[verifier::external_body]
pub(crate) fn parse_document(text: &str) -> (r: Result<serde_json::Value, serde_json::Error>)
    ensures
        match r {
            Ok(v) => parsed_json(text@) == Some(json_value(v)),
            Err(_) => parsed_json(text@) is None,
        },
{
    serde_json::from_str::<serde_json::Value>(text)
}

/// `serde_json::Value::get` with a string key: the member of that name where
/// the value is an object that has one, `None` for every other value.
#[verifier::external_body]
pub(crate) fn member<'a>(v: &'a serde_json::Value, key: &str) -> (r: Option<&'a serde_json::Value>)
    ensures
        match r {
            Some(m) => json_value(*v) matches Json::Object(fields) && fields.contains_key(key@)
                && fields[key@] == json_value(*m),
            None => !(json_value(*v) matches Json::Object(fields) && fields.contains_key(key@)),
        },
{
    v.get(key)
}

/// `serde_json::Value::is_object`: whether the value is an object.
pub assume_specification[ serde_json::Value::is_object ](v: &serde_json::Value) -> (r: bool)
    ensures
        r == (json_value(*v) is Object),
;

/// `serde_json::Value::as_array`: the elements where the value is an array,
/// `None` for every other value.
pub assume_specification<'a>[ serde_json::Value::as_array ](v: &'a serde_json::Value) -> (r: Option<&'a Vec<serde_json::Value>>)
    ensures
        match r {
            Some(items) => json_value(*v) == Json::Array(json_values(items@)),
            None => !(json_value(*v) is Array),
        },
;

/// `serde_json::Value::as_str`: the text where the value is a string, `None`
/// for every other value.
pub assume_specification<'a>[ serde_json::Value::as_str ](v: &'a serde_json::Value) -> (r: Option<&'a str>)
    ensures
        match r {
            Some(s) => json_value(*v) == Json::Text(s@),
            None => !(json_value(*v) is Text),
        },
;

/// `serde_json::Value::as_i64`: the number where the value is an integer
/// that fits in `i64`, `None` for every other value.
pub assume_specification[ serde_json::Value::as_i64 ](v: &serde_json::Value) -> (r: Option<i64>)
    ensures
        match r {
            Some(n) => json_value(*v) == Json::Integer(n as int),
            None => !(json_value(*v) matches Json::Integer(n) && i64::MIN <= n <= i64::MAX),
        },
;

} // verus!
