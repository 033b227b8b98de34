//! Reading the fields of a payload out of a JSON document.
//!
//! A payload is written on the wire as a JSON object with one member per
//! field, and a reader accepts nothing but an object. Members under other keys
//! are ignored, and an optional field may be left out or be `null`.
//!
//! A writer produces the object, and leaves out an optional field that is
//! absent.

use vstd::prelude::*;
use crate::json::{
    json_model, map_model, members_insert, model_of, value_array_len, value_bool, value_element,
    value_is_null, value_is_object, value_member, value_of_bool, value_of_elements,
    value_of_text, value_of_unsigned, value_str, value_unsigned, Json,
};

verus! {

/// Whether a document can stand for a payload: only an object can.
pub open spec fn struct_shape(json: Json) -> bool {
    json is Object
}

/// The document that stands at a field: the member of an object under `key`,
/// nothing where the document is no object or has no such member.
pub open spec fn slot(json: Json, key: Seq<char>) -> Option<Json> {
    match json {
        Json::Object(members) => if members.dom().contains(key) {
            Some(members[key])
        } else {
            None
        },
        _ => None,
    }
}

/// The diagnostic for a document that has not the shape of the payload `name`.
pub open spec fn shape_text(name: Seq<char>) -> Seq<char> {
    "invalid type: expected struct "@ + name
}

/// The diagnostic for a required field that is absent.
pub open spec fn missing_field_text(key: Seq<char>) -> Seq<char> {
    "missing field `"@ + key + "`"@
}

/// The diagnostic for a field whose document has the wrong type.
pub open spec fn invalid_field_text(key: Seq<char>) -> Seq<char> {
    "invalid type for field `"@ + key + "`"@
}

/// A required string field.
pub open spec fn required_text(at: Option<Json>, key: Seq<char>) -> Result<Seq<char>, Seq<char>> {
    match at {
        None => Err(missing_field_text(key)),
        Some(Json::Text(text)) => Ok(text),
        Some(_) => Err(invalid_field_text(key)),
    }
}

/// A required field that holds a non-negative integer below 2^64.
pub open spec fn required_unsigned(at: Option<Json>, key: Seq<char>) -> Result<u64, Seq<char>> {
    match at {
        None => Err(missing_field_text(key)),
        Some(Json::Unsigned(n)) => Ok(n),
        Some(_) => Err(invalid_field_text(key)),
    }
}

/// A required field that holds `true` or `false`.
pub open spec fn required_bool(at: Option<Json>, key: Seq<char>) -> Result<bool, Seq<char>> {
    match at {
        None => Err(missing_field_text(key)),
        Some(Json::Bool(b)) => Ok(b),
        Some(_) => Err(invalid_field_text(key)),
    }
}

/// An optional string field: absent where it is left out or `null`.
pub open spec fn optional_text(at: Option<Json>, key: Seq<char>) -> Result<
    Option<Seq<char>>,
    Seq<char>,
> {
    match at {
        None => Ok(None),
        Some(Json::Null) => Ok(None),
        Some(Json::Text(text)) => Ok(Some(text)),
        Some(_) => Err(invalid_field_text(key)),
    }
}

/// An optional integer field: absent where it is left out or `null`.
pub open spec fn optional_unsigned(at: Option<Json>, key: Seq<char>) -> Result<
    Option<u64>,
    Seq<char>,
> {
    match at {
        None => Ok(None),
        Some(Json::Null) => Ok(None),
        Some(Json::Unsigned(n)) => Ok(Some(n)),
        Some(_) => Err(invalid_field_text(key)),
    }
}

/// The strings of an array whose elements are all strings.
pub open spec fn text_list(elements: Seq<Json>) -> Option<Seq<Seq<char>>> {
    if forall|i: int| 0 <= i < elements.len() ==> (#[trigger] elements[i]) is Text {
        Some(Seq::new(elements.len(), |i: int| elements[i]->Text_0))
    } else {
        None
    }
}

/// An optional field that lists strings: absent where it is left out or
/// `null`.
pub open spec fn optional_text_list(at: Option<Json>, key: Seq<char>) -> Result<
    Option<Seq<Seq<char>>>,
    Seq<char>,
> {
    match at {
        None => Ok(None),
        Some(Json::Null) => Ok(None),
        Some(Json::Array(elements)) => match text_list(elements) {
            Some(list) => Ok(Some(list)),
            None => Err(invalid_field_text(key)),
        },
        Some(_) => Err(invalid_field_text(key)),
    }
}

/// The required string field of a payload document.
pub open spec fn text_at(json: Json, key: Seq<char>) -> Result<Seq<char>, Seq<char>> {
    required_text(slot(json, key), key)
}

/// The required integer field of a payload document.
pub open spec fn unsigned_at(json: Json, key: Seq<char>) -> Result<u64, Seq<char>> {
    required_unsigned(slot(json, key), key)
}

/// The required truth-value field of a payload document.
pub open spec fn bool_at(json: Json, key: Seq<char>) -> Result<bool, Seq<char>> {
    required_bool(slot(json, key), key)
}

/// The optional string field of a payload document.
pub open spec fn optional_text_at(json: Json, key: Seq<char>) -> Result<
    Option<Seq<char>>,
    Seq<char>,
> {
    optional_text(slot(json, key), key)
}

/// The optional integer field of a payload document.
pub open spec fn optional_unsigned_at(json: Json, key: Seq<char>) -> Result<
    Option<u64>,
    Seq<char>,
> {
    optional_unsigned(slot(json, key), key)
}

/// The optional string-list field of a payload document.
pub open spec fn optional_text_list_at(json: Json, key: Seq<char>) -> Result<
    Option<Seq<Seq<char>>>,
    Seq<char>,
> {
    optional_text_list(slot(json, key), key)
}

/// The array that lists these strings.
pub open spec fn list_json(list: Seq<Seq<char>>) -> Json {
    Json::Array(Seq::new(list.len(), |i: int| Json::Text(list[i])))
}

/// An object's members with a string field added.
pub open spec fn with_text(members: Map<Seq<char>, Json>, key: Seq<char>, text: Seq<char>) -> Map<
    Seq<char>,
    Json,
> {
    members.insert(key, Json::Text(text))
}

/// An object's members with an integer field added.
pub open spec fn with_unsigned(members: Map<Seq<char>, Json>, key: Seq<char>, n: u64) -> Map<
    Seq<char>,
    Json,
> {
    members.insert(key, Json::Unsigned(n))
}

/// An object's members with a truth-value field added.
pub open spec fn with_bool(members: Map<Seq<char>, Json>, key: Seq<char>, b: bool) -> Map<
    Seq<char>,
    Json,
> {
    members.insert(key, Json::Bool(b))
}

/// An object's members with an optional string field added where it is
/// present.
pub open spec fn with_optional_text(
    members: Map<Seq<char>, Json>,
    key: Seq<char>,
    text: Option<Seq<char>>,
) -> Map<Seq<char>, Json> {
    match text {
        Some(t) => members.insert(key, Json::Text(t)),
        None => members,
    }
}

/// An object's members with an optional integer field added where it is
/// present.
pub open spec fn with_optional_unsigned(
    members: Map<Seq<char>, Json>,
    key: Seq<char>,
    n: Option<u64>,
) -> Map<Seq<char>, Json> {
    match n {
        Some(v) => members.insert(key, Json::Unsigned(v)),
        None => members,
    }
}

/// An object's members with an optional string-list field added where it is
/// present.
pub open spec fn with_optional_text_list(
    members: Map<Seq<char>, Json>,
    key: Seq<char>,
    list: Option<Seq<Seq<char>>>,
) -> Map<Seq<char>, Json> {
    match list {
        Some(l) => members.insert(key, list_json(l)),
        None => members,
    }
}

/// What reading a field gave, as a mathematical value.
pub open spec fn field_outcome<T: DeepView>(r: Result<T, String>) -> Result<T::V, Seq<char>> {
    match r {
        Ok(v) => Ok(v.deep_view()),
        Err(message) => Err(message@),
    }
}

/// What decoding a payload gave, as a mathematical value.
pub open spec fn decode_outcome<T: View>(r: Result<T, String>) -> Result<T::V, Seq<char>> {
    match r {
        Ok(v) => Ok(v@),
        Err(message) => Err(message@),
    }
}

/// A payload that can be read out of a JSON document.
pub trait JsonDecode: Sized + View {
    /// The payload that a document stands for, or why it stands for none.
    spec fn decode_spec(json: Json) -> Result<Self::V, Seq<char>>;

    fn decode(value: &serde_json::Value) -> (r: Result<Self, String>)
        ensures
            decode_outcome(r) == Self::decode_spec(json_model(*value)),
    ;

    /// Nothing but an object stands for a payload: an array does not, however
    /// many elements it has and whatever they are.
    proof fn needs_object(json: Json)
        requires
            !(json is Object),
        ensures
            Self::decode_spec(json) is Err,
    ;
}

/// A payload that can also be written as a JSON document.
pub trait JsonEncode: JsonDecode {
    /// The document that a payload is written as.
    spec fn encode_spec(payload: Self::V) -> Json;

    fn encode(&self) -> (value: serde_json::Value)
        ensures
            json_model(value) == Self::encode_spec(self@),
    ;

    /// Reading what was written gives the payload back, field for field; a
    /// field that was absent is absent again.
    proof fn round_trip(payload: Self::V)
        ensures
            Self::decode_spec(Self::encode_spec(payload)) == Ok::<Self::V, Seq<char>>(payload),
    ;
}

fn missing_field(key: &str) -> (message: String)
    ensures
        message@ == missing_field_text(key@),
{
    let mut message = "missing field `".to_owned();
    message.append(key);
    message.append("`");
    message
}

fn invalid_field(key: &str) -> (message: String)
    ensures
        message@ == invalid_field_text(key@),
{
    let mut message = "invalid type for field `".to_owned();
    message.append(key);
    message.append("`");
    message
}

/// Tests that a document has the shape of a payload; `name` is the payload's
/// name for the diagnostic.
pub fn check_shape(value: &serde_json::Value, name: &str) -> (r: Result<(), String>)
    ensures
        match r {
            Ok(_) => struct_shape(json_model(*value)),
            Err(message) => !struct_shape(json_model(*value)) && message@ == shape_text(name@),
        },
{
    if value_is_object(value) {
        return Ok(());
    }
    let mut message = "invalid type: expected struct ".to_owned();
    message.append(name);
    Err(message)
}

/// Finds the document that stands at a field.
pub fn field<'a>(value: &'a serde_json::Value, key: &str) -> (r: Option<&'a serde_json::Value>)
    ensures
        model_of(r) == slot(json_model(*value), key@),
{
    value_member(value, key)
}

/// Reads a required string field.
pub fn text_field(value: &serde_json::Value, key: &str) -> (r: Result<
    String,
    String,
>)
    ensures
        field_outcome(r) == text_at(json_model(*value), key@),
{
    match field(value, key) {
        None => Err(missing_field(key)),
        Some(at) => match value_str(at) {
            Some(text) => Ok(text.to_owned()),
            None => Err(invalid_field(key)),
        },
    }
}

/// Reads a required integer field.
pub fn unsigned_field(value: &serde_json::Value, key: &str) -> (r: Result<
    u64,
    String,
>)
    ensures
        field_outcome(r) == unsigned_at(json_model(*value), key@),
{
    match field(value, key) {
        None => Err(missing_field(key)),
        Some(at) => match value_unsigned(at) {
            Some(n) => Ok(n),
            None => Err(invalid_field(key)),
        },
    }
}

/// Reads a required truth-value field.
pub fn bool_field(value: &serde_json::Value, key: &str) -> (r: Result<bool, String>)
    ensures
        field_outcome(r) == bool_at(json_model(*value), key@),
{
    match field(value, key) {
        None => Err(missing_field(key)),
        Some(at) => match value_bool(at) {
            Some(b) => Ok(b),
            None => Err(invalid_field(key)),
        },
    }
}

/// Reads an optional string field.
pub fn optional_text_field(value: &serde_json::Value, key: &str) -> (r: Result<
    Option<String>,
    String,
>)
    ensures
        field_outcome(r) == optional_text_at(json_model(*value), key@),
{
    match field(value, key) {
        None => Ok(None),
        Some(at) => {
            if value_is_null(at) {
                return Ok(None);
            }
            match value_str(at) {
                Some(text) => Ok(Some(text.to_owned())),
                None => Err(invalid_field(key)),
            }
        },
    }
}

/// Reads an optional integer field.
pub fn optional_unsigned_field(value: &serde_json::Value, key: &str) -> (r: Result<
    Option<u64>,
    String,
>)
    ensures
        field_outcome(r) == optional_unsigned_at(json_model(*value), key@),
{
    match field(value, key) {
        None => Ok(None),
        Some(at) => {
            if value_is_null(at) {
                return Ok(None);
            }
            match value_unsigned(at) {
                Some(n) => Ok(Some(n)),
                None => Err(invalid_field(key)),
            }
        },
    }
}

/// Collects the strings of an array, or finds an element that is none.
fn collect_texts(value: &serde_json::Value, len: usize) -> (r: Option<Vec<String>>)
    requires
        json_model(*value) matches Json::Array(elements) && elements.len() == len,
    ensures
        r.deep_view() == text_list(json_model(*value)->Array_0),
{
    let ghost elements = json_model(*value)->Array_0;
    let mut texts: Vec<String> = Vec::new();
    let mut i: usize = 0;
    while i < len
        invariant
            i <= len,
            json_model(*value) == Json::Array(elements),
            elements.len() == len,
            texts.len() == i,
            forall|j: int| 0 <= j < i ==> (#[trigger] elements[j]) == Json::Text(texts[j]@),
        decreases len - i,
    {
        match value_element(value, i) {
            None => {
                return None;
            },
            Some(element) => match value_str(element) {
                None => {
                    assert(!(elements[i as int] is Text));
                    return None;
                },
                Some(text) => {
                    texts.push(text.to_owned());
                },
            },
        }
        i += 1;
    }
    assert(texts.deep_view() =~= Seq::new(elements.len(), |i: int| elements[i]->Text_0));
    Some(texts)
}

/// Reads an optional field that lists strings.
pub fn optional_text_list_field(value: &serde_json::Value, key: &str) -> (r: Result<
    Option<Vec<String>>,
    String,
>)
    ensures
        field_outcome(r) == optional_text_list_at(json_model(*value), key@),
{
    match field(value, key) {
        None => Ok(None),
        Some(at) => {
            if value_is_null(at) {
                return Ok(None);
            }
            match value_array_len(at) {
                None => Err(invalid_field(key)),
                Some(len) => match collect_texts(at, len) {
                    Some(texts) => Ok(Some(texts)),
                    None => Err(invalid_field(key)),
                },
            }
        },
    }
}

/// Writes a string field.
pub fn put_text(
    members: &mut serde_json::Map<String, serde_json::Value>,
    key: &str,
    text: &String,
)
    ensures
        map_model(*final(members)) == with_text(map_model(*old(members)), key@, text@),
{
    members_insert(members, key.to_owned(), value_of_text(text.clone()));
}

/// Writes an integer field.
pub fn put_unsigned(members: &mut serde_json::Map<String, serde_json::Value>, key: &str, n: u64)
    ensures
        map_model(*final(members)) == with_unsigned(map_model(*old(members)), key@, n),
{
    members_insert(members, key.to_owned(), value_of_unsigned(n));
}

/// Writes a truth-value field.
pub fn put_bool(members: &mut serde_json::Map<String, serde_json::Value>, key: &str, b: bool)
    ensures
        map_model(*final(members)) == with_bool(map_model(*old(members)), key@, b),
{
    members_insert(members, key.to_owned(), value_of_bool(b));
}

/// Writes an optional string field, where it is present.
pub fn put_optional_text(
    members: &mut serde_json::Map<String, serde_json::Value>,
    key: &str,
    text: &Option<String>,
)
    ensures
        map_model(*final(members)) == with_optional_text(
            map_model(*old(members)),
            key@,
            text.deep_view(),
        ),
{
    match text {
        Some(t) => {
            members_insert(members, key.to_owned(), value_of_text(t.clone()));
        },
        None => {},
    }
}

/// Writes an optional integer field, where it is present.
pub fn put_optional_unsigned(
    members: &mut serde_json::Map<String, serde_json::Value>,
    key: &str,
    n: &Option<u64>,
)
    ensures
        map_model(*final(members)) == with_optional_unsigned(
            map_model(*old(members)),
            key@,
            n.deep_view(),
        ),
{
    match n {
        Some(v) => {
            members_insert(members, key.to_owned(), value_of_unsigned(*v));
        },
        None => {},
    }
}

/// Writes a list of strings as an array.
fn list_value(list: &Vec<String>) -> (value: serde_json::Value)
    ensures
        json_model(value) == list_json(list.deep_view()),
{
    let mut elements: Vec<serde_json::Value> = Vec::new();
    let mut i: usize = 0;
    while i < list.len()
        invariant
            i <= list.len(),
            elements.len() == i,
            forall|j: int| 0 <= j < i ==> json_model(#[trigger] elements[j]) == Json::Text(list[j]@),
        decreases list.len() - i,
    {
        elements.push(value_of_text(list[i].clone()));
        i += 1;
    }
    assert(elements@.map_values(|element: serde_json::Value| json_model(element)) =~= Seq::new(
        list.deep_view().len(),
        |i: int| Json::Text(list.deep_view()[i]),
    ));
    value_of_elements(elements)
}

/// Writes an optional string-list field, where it is present.
pub fn put_optional_text_list(
    members: &mut serde_json::Map<String, serde_json::Value>,
    key: &str,
    list: &Option<Vec<String>>,
)
    ensures
        map_model(*final(members)) == with_optional_text_list(
            map_model(*old(members)),
            key@,
            list.deep_view(),
        ),
{
    match list {
        Some(l) => {
            members_insert(members, key.to_owned(), list_value(l));
        },
        None => {},
    }
}

/// Reading back the array that lists some strings gives those strings.
pub proof fn lemma_text_list_of_list_json(list: Seq<Seq<char>>)
    ensures
        text_list(list_json(list)->Array_0) == Some(list),
{
    let elements = list_json(list)->Array_0;
    assert(forall|i: int| 0 <= i < elements.len() ==> (#[trigger] elements[i]) is Text);
    assert(Seq::new(elements.len(), |i: int| elements[i]->Text_0) =~= list);
}

} // verus!
