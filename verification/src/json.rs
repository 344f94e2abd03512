//! The boundary to `serde_json`: a ghost model of a JSON document, and the
//! few operations of `serde_json::Value` that this library reads one with.

use vstd::prelude::*;

verus! {

/// What a JSON document holds, as far as this library reads one. A number
/// carries no payload: nothing here looks at it.
pub enum Json {
    Null,
    Bool(bool),
    Number,
    Text(Seq<char>),
    Array(Seq<Json>),
    Object(Map<Seq<char>, Json>),
}

#[verifier::external_type_specification]
#[verifier::external_body]
pub struct ExValue(serde_json::Value);

#[verifier::external_type_specification]
#[verifier::external_body]
pub struct ExError(serde_json::Error);

/// The document that a `serde_json::Value` holds.
pub uninterp spec fn json_model(value: serde_json::Value) -> Json;

/// The document that `serde_json` reads from a text, `None` where it refuses
/// the text.
pub uninterp spec fn json_parse(text: Seq<char>) -> Option<Json>;

/// The JSON string literal that `serde_json` writes for a text: the text
/// between double quotes, with its escapes.
pub uninterp spec fn json_quote(text: Seq<char>) -> Seq<char>;

/// The member of an object under a key; `Null` where the document is no
/// object or has no such member.
pub open spec fn member_of(doc: Json, key: Seq<char>) -> Json {
    match doc {
        Json::Object(members) => if members.contains_key(key) {
            members[key]
        } else {
            Json::Null
        },
        _ => Json::Null,
    }
}

/// The documents that a sequence of values holds, one for one.
pub open spec fn models_of(values: Seq<serde_json::Value>) -> Seq<Json> {
    values.map_values(|v: serde_json::Value| json_model(v))
}

/// `serde_json::from_str` at `Value`. It is trusted to be a function of the
/// text alone: an accepted text gives a value that holds `json_parse` of it,
/// a refused text gives the error.
#[verifier::external_body]
pub(crate) fn parse(text: &str) -> (parsed: Result<serde_json::Value, serde_json::Error>)
    ensures
        match parsed {
            Ok(value) => json_parse(text@) == Some(json_model(value)),
            Err(_) => json_parse(text@) is None,
        },
{
    serde_json::from_str::<serde_json::Value>(text)
}

/// Indexing a `serde_json::Value` by a string key. It is trusted to hand out
/// the member of that name where the value is an object that has one, and a
/// null value in every other case.
#[verifier::external_body]
pub(crate) fn member<'a>(value: &'a serde_json::Value, key: &str) -> (found: &'a serde_json::Value)
    ensures
        json_model(*found) == member_of(json_model(*value), key@),
{
    &value[key]
}

/// `Value::as_array`: the elements of an array, `None` for any other value.
pub assume_specification<'a>[ serde_json::Value::as_array ](value: &'a serde_json::Value) -> (items: Option<&'a Vec<serde_json::Value>>)
    ensures
        match items {
            Some(list) => json_model(*value) == Json::Array(models_of(list@)),
            None => !(json_model(*value) is Array),
        },
;

/// `Value::as_str`: the text of a string, `None` for any other value.
pub assume_specification<'a>[ serde_json::Value::as_str ](value: &'a serde_json::Value) -> (text: Option<&'a str>)
    ensures
        match text {
            Some(s) => json_model(*value) == Json::Text(s@),
            None => !(json_model(*value) is Text),
        },
;

/// `Value::is_null`: whether the value is JSON's `null`.
pub assume_specification[ serde_json::Value::is_null ](value: &serde_json::Value) -> (yes: bool)
    ensures
        yes == (json_model(*value) is Null),
;

/// `Value::is_object`: whether the value is an object.
pub assume_specification[ serde_json::Value::is_object ](value: &serde_json::Value) -> (yes: bool)
    ensures
        yes == (json_model(*value) is Object),
;

/// The compact `Display` of a `serde_json::Value` that holds a string. It is
/// trusted to be a function of the text alone.
#[verifier::external_body]
pub(crate) fn quote(text: &str) -> (quoted: String)
    ensures
        quoted@ == json_quote(text@),
{
    serde_json::Value::String(text.to_owned()).to_string()
}

} // verus!
