//! JSON values, read and written through `serde_json`.

use crate::text::texts;
use vstd::prelude::*;

verus! {

/// A `serde_json::Value`; what one holds is given by `holds`.
#[verifier::external_type_specification]
#[verifier::external_body]
pub struct ExValue(serde_json::Value);

/// What a JSON value holds. A number is known by its value where that is a
/// whole number from 0 to `u64::MAX` written without fraction or exponent.
pub enum Json {
    Null,
    Bool(bool),
    Number(Option<nat>),
    Text(Seq<char>),
    List(Seq<Json>),
    Object(Map<Seq<char>, Json>),
}

/// What a `serde_json::Value` holds.
pub uninterp spec fn holds(v: serde_json::Value) -> Json;

/// What `serde_json::from_str::<Value>` reads from a text, and nothing where
/// the text is no JSON.
pub uninterp spec fn parsed(s: Seq<char>) -> Option<Json>;

/// What `serde_json::from_str::<Vec<String>>` reads from a text: the strings
/// of a JSON array of strings, and nothing where the text is no such array.
pub uninterp spec fn json_strings(s: Seq<char>) -> Option<Seq<Seq<char>>>;

/// The text that `Value::to_string` writes.
pub uninterp spec fn json_text(j: Json) -> Seq<char>;

/// What a list of values holds.
pub open spec fn held(v: Seq<serde_json::Value>) -> Seq<Json> {
    v.map_values(|x: serde_json::Value| holds(x))
}

/// The field `key` of an object.
pub open spec fn get(j: Json, key: Seq<char>) -> Option<Json> {
    match j {
        Json::Object(m) => if m.contains_key(key) {
            Some(m[key])
        } else {
            None
        },
        _ => None,
    }
}

/// The text of the field `key` of an object, where it is a text.
pub open spec fn get_text(j: Json, key: Seq<char>) -> Option<Seq<char>> {
    match get(j, key) {
        Some(Json::Text(s)) => Some(s),
        _ => None,
    }
}

/// The whole number of the field `key` of an object, where it is one.
pub open spec fn get_number(j: Json, key: Seq<char>) -> Option<nat> {
    match get(j, key) {
        Some(Json::Number(n)) => n,
        _ => None,
    }
}

/// The items of the field `key` of an object, where it is a list.
pub open spec fn get_list(j: Json, key: Seq<char>) -> Option<Seq<Json>> {
    match get(j, key) {
        Some(Json::List(items)) => Some(items),
        _ => None,
    }
}

/// An object with the fields.
pub open spec fn object_of(fields: Seq<(Seq<char>, Json)>) -> Map<Seq<char>, Json>
    decreases fields.len(),
{
    if fields.len() == 0 {
        Map::empty()
    } else {
        object_of(fields.drop_last()).insert(fields.last().0, fields.last().1)
    }
}

/// What a list of named values holds.
pub open spec fn held_fields(v: Seq<(String, serde_json::Value)>) -> Seq<(Seq<char>, Json)> {
    v.map_values(|f: (String, serde_json::Value)| (f.0@, holds(f.1)))
}

/// Whether a value is an object of texts alone.
pub open spec fn all_texts(j: Json) -> bool {
    j matches Json::Object(m) && (forall|k: Seq<char>| #[trigger]
        m.contains_key(k) ==> m[k] is Text)
}

/// Calls `serde_json::from_str::<Vec<String>>`. The contract claims that what
/// it reads depends on the text alone.
#[verifier::external_body]
pub(crate) fn string_array(s: &str) -> (r: Option<Vec<String>>)
    ensures
        match r {
            Some(v) => json_strings(s@) == Some(texts(v@)),
            None => json_strings(s@) is None,
        },
{
    serde_json::from_str::<Vec<String>>(s).ok()
}

/// Calls `serde_json::from_str::<Value>`. The contract claims that what it
/// reads depends on the text alone.
#[verifier::external_body]
pub(crate) fn parse(s: &str) -> (r: Option<serde_json::Value>)
    ensures
        match r {
            Some(v) => parsed(s@) == Some(holds(v)),
            None => parsed(s@) is None,
        },
{
    serde_json::from_str::<serde_json::Value>(s).ok()
}

/// Calls `Value::get` with a string: the field of that name of an object, and
/// nothing for a value of another kind.
#[verifier::external_body]
pub(crate) fn field<'a>(v: &'a serde_json::Value, key: &str) -> (r: Option<&'a serde_json::Value>)
    ensures
        match r {
            Some(x) => get(holds(*v), key@) == Some(holds(*x)),
            None => get(holds(*v), key@) is None,
        },
{
    v.get(key)
}

/// Calls `Value::as_str`: the text of a string value, and nothing for a value
/// of another kind.
#[verifier::external_body]
pub(crate) fn as_text<'a>(v: &'a serde_json::Value) -> (r: Option<&'a str>)
    ensures
        match r {
            Some(s) => holds(*v) == Json::Text(s@),
            None => !(holds(*v) is Text),
        },
{
    v.as_str()
}

/// Calls `Value::as_u64`: the whole number that a number value holds, and
/// nothing for another number or a value of another kind.
#[verifier::external_body]
pub(crate) fn as_number(v: &serde_json::Value) -> (r: Option<u64>)
    ensures
        match r {
            Some(n) => holds(*v) == Json::Number(Some(n as nat)),
            None => !(holds(*v) matches Json::Number(Some(_))),
        },
{
    v.as_u64()
}

/// Calls `Value::as_array`: the items of an array value, and nothing for a
/// value of another kind.
#[verifier::external_body]
pub(crate) fn as_list<'a>(v: &'a serde_json::Value) -> (r: Option<&'a Vec<serde_json::Value>>)
    ensures
        match r {
            Some(items) => holds(*v) == Json::List(held(items@)),
            None => !(holds(*v) is List),
        },
{
    v.as_array()
}

/// Builds `Value::String`.
#[verifier::external_body]
pub(crate) fn text_value(s: &str) -> (r: serde_json::Value)
    ensures
        holds(r) == Json::Text(s@),
{
    serde_json::Value::String(s.to_string())
}

/// Builds `Value::Bool`.
#[verifier::external_body]
pub(crate) fn bool_value(b: bool) -> (r: serde_json::Value)
    ensures
        holds(r) == Json::Bool(b),
{
    serde_json::Value::Bool(b)
}

/// Builds a `Value::Number` from a whole number, by `Value::from`.
#[verifier::external_body]
pub(crate) fn number_value(n: u64) -> (r: serde_json::Value)
    ensures
        holds(r) == Json::Number(Some(n as nat)),
{
    serde_json::Value::from(n)
}

/// Builds `Value::Array`.
#[verifier::external_body]
pub(crate) fn list_value(items: Vec<serde_json::Value>) -> (r: serde_json::Value)
    ensures
        holds(r) == Json::List(held(items@)),
{
    serde_json::Value::Array(items)
}

/// Whether no two fields have one name.
pub open spec fn names_differ(fields: Seq<(String, serde_json::Value)>) -> bool {
    forall|i: int, j: int|
        0 <= i < j < fields.len() ==> (#[trigger] fields[i]).0@ != (#[trigger] fields[j]).0@
}

/// Builds `Value::Object` by collecting the fields, no two of one name, into a
/// `serde_json::Map`.
#[verifier::external_body]
pub(crate) fn object_value(fields: Vec<(String, serde_json::Value)>) -> (r: serde_json::Value)
    requires
        names_differ(fields@),
    ensures
        holds(r) == Json::Object(object_of(held_fields(fields@))),
{
    serde_json::Value::Object(fields.into_iter().collect::<serde_json::Map<String, serde_json::Value>>())
}

/// Calls `Value::to_string`. Of an object of texts the contract claims that
/// the text depends on what the object holds alone, and that reading the text
/// gives back what was written. Of other values it claims nothing.
#[verifier::external_body]
pub(crate) fn value_text(v: &serde_json::Value) -> (r: String)
    ensures
        all_texts(holds(*v)) ==> r@ == json_text(holds(*v)) && parsed(r@) == Some(holds(*v)),
{
    v.to_string()
}

/// The text of the field `key`, or nothing.
pub(crate) fn text_field<'a>(v: &'a serde_json::Value, key: &str) -> (r: Option<&'a str>)
    ensures
        match r {
            Some(s) => get_text(holds(*v), key@) == Some(s@),
            None => get_text(holds(*v), key@) is None,
        },
{
    match field(v, key) {
        Some(x) => as_text(x),
        None => None,
    }
}

/// The whole number of the field `key`, or nothing.
pub(crate) fn number_field(v: &serde_json::Value, key: &str) -> (r: Option<u64>)
    ensures
        match r {
            Some(n) => get_number(holds(*v), key@) == Some(n as nat),
            None => get_number(holds(*v), key@) is None,
        },
{
    match field(v, key) {
        Some(x) => as_number(x),
        None => None,
    }
}

} // verus!
