//! JSON values as the wire layer sees them: a mathematical tree, and the
//! `serde_json` calls that build, print, parse and take apart a value.
//!
//! Everything marked `external_body` here is believed, not proved. Each such
//! function makes exactly one call into `serde_json`.

use vstd::prelude::*;

verus! {

/// A JSON document as a mathematical value.
pub enum Json {
    Null,
    Bool(bool),
    /// An integer between `i64::MIN` and `u64::MAX`.
    Int(int),
    /// Any other number, told apart by its 64-bit pattern.
    Real(int),
    Text(Seq<char>),
    List(Seq<Json>),
    Dict(Map<Seq<char>, Json>),
}

/// `serde_json::Value`, carried as it is. What a value holds is known only
/// through `json_of`.
#[verifier::external_type_specification]
#[verifier::external_body]
pub struct ExValue(serde_json::Value);

/// `serde_json::Map`, carried as it is. What an object holds is known only
/// through `members_of`.
#[verifier::external_type_specification]
#[verifier::external_body]
#[verifier::reject_recursive_types(K)]
#[verifier::reject_recursive_types(V)]
pub struct ExObject<K, V>(serde_json::Map<K, V>);

/// `serde_json::Error`, carried as it is. Nothing is known of an error but
/// that there is one.
#[verifier::external_type_specification]
#[verifier::external_body]
pub struct ExJsonError(serde_json::Error);

/// The document that a `serde_json::Value` holds.
pub uninterp spec fn json_of(value: serde_json::Value) -> Json;

/// The members that a `serde_json::Map` holds, by key.
pub uninterp spec fn members_of(object: serde_json::Map<String, serde_json::Value>) -> Map<
    Seq<char>,
    Json,
>;

/// The compact text that `serde_json::to_vec` prints for a document. The
/// members of an object come in the order of their names.
pub uninterp spec fn json_bytes(json: Json) -> Seq<u8>;

/// The document that `serde_json::from_slice` reads from a text, if it accepts the text.
pub uninterp spec fn json_parse(bytes: Seq<u8>) -> Option<Json>;

/// The members of an object that has none.
pub open spec fn no_members() -> Map<Seq<char>, Json> {
    Map::empty()
}

/// The documents held by a sequence of values, in order.
pub open spec fn jsons_of(values: Seq<serde_json::Value>) -> Seq<Json> {
    values.map_values(|v: serde_json::Value| json_of(v))
}

/// `serde_json::Value::Null`: the value that holds `null`.
#[verifier::external_body]
pub(crate) fn null_value() -> (value: serde_json::Value)
    ensures
        json_of(value) == Json::Null,
{
    serde_json::Value::Null
}

/// `Value::from(u64)`: a number value that holds the given integer.
#[verifier::external_body]
pub(crate) fn unsigned_value(number: u64) -> (value: serde_json::Value)
    ensures
        json_of(value) == Json::Int(number as int),
{
    serde_json::Value::from(number)
}

/// `Value::from(i64)`: a number value that holds the given integer.
#[verifier::external_body]
pub(crate) fn signed_value(number: i64) -> (value: serde_json::Value)
    ensures
        json_of(value) == Json::Int(number as int),
{
    serde_json::Value::from(number)
}

/// `Value::from(&str)`: a string value with the given characters.
#[verifier::external_body]
pub(crate) fn text_value(text: &str) -> (value: serde_json::Value)
    ensures
        json_of(value) == Json::Text(text@),
{
    serde_json::Value::from(text)
}

/// `Value::Array`: an array value that holds the given values in order.
#[verifier::external_body]
pub(crate) fn list_value(items: Vec<serde_json::Value>) -> (value: serde_json::Value)
    ensures
        json_of(value) == Json::List(jsons_of(items@)),
{
    serde_json::Value::Array(items)
}

/// `Map::new`: an object without members.
#[verifier::external_body]
pub(crate) fn empty_object() -> (object: serde_json::Map<String, serde_json::Value>)
    ensures
        members_of(object) == no_members(),
{
    serde_json::Map::new()
}

/// `Map::insert`: sets the member `key`, replacing an earlier member of that name.
#[verifier::external_body]
pub(crate) fn object_insert(
    object: &mut serde_json::Map<String, serde_json::Value>,
    key: &str,
    value: serde_json::Value,
)
    ensures
        members_of(*final(object)) == members_of(*old(object)).insert(key@, json_of(value)),
{
    object.insert(key.to_owned(), value);
}

/// `Value::Object`: an object value with the given members.
#[verifier::external_body]
pub(crate) fn object_value(object: serde_json::Map<String, serde_json::Value>) -> (value:
    serde_json::Value)
    ensures
        json_of(value) == Json::Dict(members_of(object)),
{
    serde_json::Value::Object(object)
}

/// `serde_json::to_vec` on a `Value`: the compact text of the document.
///
/// The call fails only where a `Serialize` impl fails or a map has keys that
/// are not strings; a `Value` has neither, and the writer is a `Vec`.
#[verifier::external_body]
pub(crate) fn value_bytes(value: &serde_json::Value) -> (bytes: Vec<u8>)
    ensures
        bytes@ == json_bytes(json_of(*value)),
{
    serde_json::to_vec(value).unwrap_or_default()
}

/// `serde_json::from_slice` into a `Value`: the document of a text, or the
/// parser's error.
#[verifier::external_body]
pub(crate) fn parse_value(bytes: &[u8]) -> (parsed: Result<serde_json::Value, serde_json::Error>)
    ensures
        match parsed {
            Ok(value) => json_parse(bytes@) == Some(json_of(value)),
            Err(_) => json_parse(bytes@) is None,
        },
{
    serde_json::from_slice::<serde_json::Value>(bytes)
}

/// `Value::is_null`.
#[verifier::external_body]
pub(crate) fn value_is_null(value: &serde_json::Value) -> (null: bool)
    ensures
        null == (json_of(*value) is Null),
{
    value.is_null()
}

/// `Value::as_u64`: the integer of a number value that holds one from `0` to `u64::MAX`.
#[verifier::external_body]
pub(crate) fn value_as_u64(value: &serde_json::Value) -> (number: Option<u64>)
    ensures
        number == match json_of(*value) {
            Json::Int(n) if 0 <= n <= u64::MAX => Some(n as u64),
            _ => None,
        },
{
    value.as_u64()
}

/// `Value::as_i64`: the integer of a number value that holds one from `i64::MIN` to `i64::MAX`.
#[verifier::external_body]
pub(crate) fn value_as_i64(value: &serde_json::Value) -> (number: Option<i64>)
    ensures
        number == match json_of(*value) {
            Json::Int(n) if i64::MIN <= n <= i64::MAX => Some(n as i64),
            _ => None,
        },
{
    value.as_i64()
}

/// `Value::as_str`: the characters of a string value.
#[verifier::external_body]
pub(crate) fn value_as_str<'a>(value: &'a serde_json::Value) -> (text: Option<&'a str>)
    ensures
        match text {
            Some(s) => json_of(*value) == Json::Text(s@),
            None => !(json_of(*value) is Text),
        },
{
    value.as_str()
}

/// `Value::as_array`: the items of an array value.
#[verifier::external_body]
pub(crate) fn value_as_array<'a>(value: &'a serde_json::Value) -> (items: Option<
    &'a Vec<serde_json::Value>,
>)
    ensures
        match items {
            Some(v) => json_of(*value) == Json::List(jsons_of(v@)),
            None => !(json_of(*value) is List),
        },
{
    value.as_array()
}

/// `Value::as_object`: the members of an object value.
#[verifier::external_body]
pub(crate) fn value_as_object<'a>(value: &'a serde_json::Value) -> (object: Option<
    &'a serde_json::Map<String, serde_json::Value>,
>)
    ensures
        match object {
            Some(m) => json_of(*value) == Json::Dict(members_of(*m)),
            None => !(json_of(*value) is Dict),
        },
{
    value.as_object()
}

/// `Map::get`: the member named `key`, if the object has one.
#[verifier::external_body]
pub(crate) fn object_get<'a>(
    object: &'a serde_json::Map<String, serde_json::Value>,
    key: &str,
) -> (member: Option<&'a serde_json::Value>)
    ensures
        match member {
            Some(v) => members_of(*object).contains_key(key@) && members_of(*object)[key@]
                == json_of(*v),
            None => !members_of(*object).contains_key(key@),
        },
{
    object.get(key)
}

/// `Map::keys`: every member's name once, handed out as owned strings.
#[verifier::external_body]
pub(crate) fn object_keys(object: &serde_json::Map<String, serde_json::Value>) -> (keys: Vec<
    String,
>)
    ensures
        keys.deep_view().no_duplicates(),
        keys.deep_view().to_set() == members_of(*object).dom(),
{
    object.keys().cloned().collect()
}

} // verus!
