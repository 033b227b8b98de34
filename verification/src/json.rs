//! JSON documents as the decoder hands them over, and what the library reads
//! from them.
//!
//! A decoded document stays a `serde_json::Value`. The library never looks
//! inside one directly: it asks through the functions below, whose contracts
//! speak of the document that the value holds.

use vstd::prelude::*;

verus! {

/// A JSON document as a mathematical value. A number is told apart only as far
/// as the payloads need it: a non-negative integer below 2^64, or any other.
pub enum Json {
    Null,
    Bool(bool),
    Unsigned(u64),
    OtherNumber,
    Text(Seq<char>),
    Array(Seq<Json>),
    Object(Map<Seq<char>, Json>),
}

/// `serde_json::Value`, carried as it is: nothing is known of one but what
/// the functions below say.
#[verifier::external_type_specification]
#[verifier::external_body]
pub struct ExJsonValue(serde_json::Value);

/// `serde_json::Map`, the members of an object while it is being written.
#[verifier::external_type_specification]
#[verifier::external_body]
#[verifier::reject_recursive_types(K)]
#[verifier::reject_recursive_types(V)]
pub struct ExJsonMap<K, V>(serde_json::Map<K, V>);

/// The document that a decoded value holds.
pub uninterp spec fn json_model(value: serde_json::Value) -> Json;

/// The members that a map of an object holds, by key.
pub uninterp spec fn map_model(members: serde_json::Map<String, serde_json::Value>) -> Map<
    Seq<char>,
    Json,
>;

/// What decoding a text as JSON gives: the document, or the decoder's
/// diagnostic.
pub uninterp spec fn json_parse(text: Seq<char>) -> Result<Json, Seq<char>>;

/// An object's members where it has none.
pub open spec fn no_members() -> Map<Seq<char>, Json> {
    Map::empty()
}

/// The document behind an optional reference.
pub open spec fn model_of(value: Option<&serde_json::Value>) -> Option<Json> {
    match value {
        Some(v) => Some(json_model(*v)),
        None => None,
    }
}

/// `serde_json::from_str` at `serde_json::Value`. The outcome depends on the
/// text alone; an error is handed over as the message it displays.
#[verifier::external_body]
pub(crate) fn parse_json(text: &str) -> (r: Result<serde_json::Value, String>)
    ensures
        match r {
            Ok(value) => json_parse(text@) == Ok::<Json, Seq<char>>(json_model(value)),
            Err(message) => json_parse(text@) == Err::<Json, Seq<char>>(message@),
        },
{
    serde_json::from_str::<serde_json::Value>(text).map_err(|e| e.to_string())
}

/// `serde_json::Value::as_str`: the text of a string, `None` for any other
/// document.
#[verifier::external_body]
pub(crate) fn value_str(value: &serde_json::Value) -> (r: Option<&str>)
    ensures
        match r {
            Some(text) => json_model(*value) == Json::Text(text@),
            None => !(json_model(*value) is Text),
        },
{
    value.as_str()
}

/// `serde_json::Value::as_u64`: the number where the document is a
/// non-negative integer below 2^64, `None` for any other document.
#[verifier::external_body]
pub(crate) fn value_unsigned(value: &serde_json::Value) -> (r: Option<u64>)
    ensures
        match r {
            Some(n) => json_model(*value) == Json::Unsigned(n),
            None => !(json_model(*value) is Unsigned),
        },
{
    value.as_u64()
}

/// `serde_json::Value::as_bool`: the truth value of `true` or `false`, `None`
/// for any other document.
#[verifier::external_body]
pub(crate) fn value_bool(value: &serde_json::Value) -> (r: Option<bool>)
    ensures
        match r {
            Some(b) => json_model(*value) == Json::Bool(b),
            None => !(json_model(*value) is Bool),
        },
{
    value.as_bool()
}

/// `serde_json::Value::is_null`: whether the document is `null`.
#[verifier::external_body]
pub(crate) fn value_is_null(value: &serde_json::Value) -> (r: bool)
    ensures
        r == (json_model(*value) is Null),
{
    value.is_null()
}

/// `serde_json::Value::is_object`: whether the document is an object.
#[verifier::external_body]
pub(crate) fn value_is_object(value: &serde_json::Value) -> (r: bool)
    ensures
        r == (json_model(*value) is Object),
{
    value.is_object()
}

/// `serde_json::Value::get` with a string: the member of an object under that
/// key, `None` where the document is no object or has no such key.
#[verifier::external_body]
pub(crate) fn value_member<'a>(value: &'a serde_json::Value, key: &str) -> (r: Option<
    &'a serde_json::Value,
>)
    ensures
        match r {
            Some(member) => json_model(*value) matches Json::Object(members)
                && members.dom().contains(key@) && members[key@] == json_model(*member),
            None => !(json_model(*value) matches Json::Object(members) && members.dom().contains(
                key@,
            )),
        },
{
    value.get(key)
}

/// `serde_json::Value::get` with a position: the element of an array at that
/// position, `None` where the document is no array or is too short.
#[verifier::external_body]
pub(crate) fn value_element<'a>(value: &'a serde_json::Value, index: usize) -> (r: Option<
    &'a serde_json::Value,
>)
    ensures
        match r {
            Some(element) => json_model(*value) matches Json::Array(elements) && index
                < elements.len() && elements[index as int] == json_model(*element),
            None => !(json_model(*value) matches Json::Array(elements) && index < elements.len()),
        },
{
    value.get(index)
}

/// `serde_json::Value::as_array`, then the vector's length: how many elements
/// an array has, `None` for any other document.
#[verifier::external_body]
pub(crate) fn value_array_len(value: &serde_json::Value) -> (r: Option<usize>)
    ensures
        match r {
            Some(n) => json_model(*value) matches Json::Array(elements) && elements.len() == n,
            None => !(json_model(*value) is Array),
        },
{
    value.as_array().map(|elements| elements.len())
}

/// `serde_json::Value::String`: the document that is this string.
#[verifier::external_body]
pub(crate) fn value_of_text(text: String) -> (value: serde_json::Value)
    ensures
        json_model(value) == Json::Text(text@),
{
    serde_json::Value::String(text)
}

/// `serde_json::Value::from` at `u64`: the document that is this number.
#[verifier::external_body]
pub(crate) fn value_of_unsigned(n: u64) -> (value: serde_json::Value)
    ensures
        json_model(value) == Json::Unsigned(n),
{
    serde_json::Value::from(n)
}

/// `serde_json::Value::Bool`: the document that is this truth value.
#[verifier::external_body]
pub(crate) fn value_of_bool(b: bool) -> (value: serde_json::Value)
    ensures
        json_model(value) == Json::Bool(b),
{
    serde_json::Value::Bool(b)
}

/// `serde_json::Value::Array`: the array of these documents, in their order.
#[verifier::external_body]
pub(crate) fn value_of_elements(elements: Vec<serde_json::Value>) -> (value: serde_json::Value)
    ensures
        json_model(value) == Json::Array(
            elements@.map_values(|element: serde_json::Value| json_model(element)),
        ),
{
    serde_json::Value::Array(elements)
}

/// `serde_json::Map::new`: a map without members.
#[verifier::external_body]
pub(crate) fn members_new() -> (members: serde_json::Map<String, serde_json::Value>)
    ensures
        map_model(members) == no_members(),
{
    serde_json::Map::new()
}

/// `serde_json::Map::insert`: the map holds the value under the key afterwards,
/// in place of what stood there, and its other members as before.
#[verifier::external_body]
pub(crate) fn members_insert(
    members: &mut serde_json::Map<String, serde_json::Value>,
    key: String,
    value: serde_json::Value,
)
    ensures
        map_model(*final(members)) == map_model(*old(members)).insert(key@, json_model(value)),
{
    members.insert(key, value);
}

/// `serde_json::Value::Object`: the object of these members.
#[verifier::external_body]
pub(crate) fn value_of_members(members: serde_json::Map<String, serde_json::Value>) -> (value:
    serde_json::Value)
    ensures
        json_model(value) == Json::Object(map_model(members)),
{
    serde_json::Value::Object(members)
}

} // verus!
