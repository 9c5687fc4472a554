//! JSON objects, as far as the channel reads and writes them.
//!
//! Parsing, storing and writing JSON is `serde_json`'s work. Of a JSON object
//! the channel reads the members that are strings and those that are unsigned
//! integers, so that is what the specifications speak of.
use vstd::prelude::*;
use vstd::utf8::encode_utf8;

use crate::form::only_ampersands;
use crate::text::joined;

verus! {

/// `serde_json::Value`, a JSON value of any kind.
#[verifier::external_type_specification]
#[verifier::external_body]
pub struct ExValue(serde_json::Value);

/// `serde_json::Map`, the members of a JSON object.
#[verifier::external_type_specification]
#[verifier::external_body]
#[verifier::reject_recursive_types(K)]
#[verifier::reject_recursive_types(V)]
pub struct ExMap<K, V>(serde_json::Map<K, V>);

/// `serde_json::Error`, why a text is not JSON or a value cannot be written.
#[verifier::external_type_specification]
#[verifier::external_body]
pub struct ExError(serde_json::Error);

/// A member of a JSON object that the channel can store.
#[derive(Debug, PartialEq, Eq)]
pub enum FieldValue {
    Text(String),
    Number(u64),
}

/// A member of a JSON object as the channel reads it.
pub enum Field {
    /// A string.
    Text(Seq<char>),
    /// An integer between zero and `u64::MAX`.
    Number(u64),
    /// Anything else: null, a boolean, another number, an array, an object.
    Other,
}

/// The members of a JSON object, by name.
pub type Fields = Map<Seq<char>, Field>;

impl View for FieldValue {
    type V = Field;

    open spec fn view(&self) -> Field {
        match self {
            FieldValue::Text(text) => Field::Text(text@),
            FieldValue::Number(number) => Field::Number(*number),
        }
    }
}

/// An object without members.
pub open spec fn no_fields() -> Fields {
    Map::empty()
}

/// The string that the member `key` holds, if it is there and is a string.
pub open spec fn text_field(fields: Fields, key: Seq<char>) -> Option<Seq<char>> {
    if fields.contains_key(key) {
        match fields[key] {
            Field::Text(text) => Some(text),
            _ => None,
        }
    } else {
        None
    }
}

/// The unsigned integer that the member `key` holds, if it is there and is one.
pub open spec fn number_field(fields: Fields, key: Seq<char>) -> Option<u64> {
    if fields.contains_key(key) {
        match fields[key] {
            Field::Number(number) => Some(number),
            _ => None,
        }
    } else {
        None
    }
}

/// The members that a `serde_json::Map` holds.
pub uninterp spec fn map_fields(map: serde_json::Map<String, serde_json::Value>) -> Fields;

/// The members of the object that a `serde_json::Value` is; none where the
/// value is no object.
pub uninterp spec fn value_fields(value: serde_json::Value) -> Fields;

/// The members of the object that `serde_json` reads in a text; none where the
/// text is JSON but no object; no result where it is not JSON.
pub uninterp spec fn json_text_fields(text: Seq<char>) -> Option<Fields>;

/// The same of a text given as bytes.
pub uninterp spec fn json_bytes_fields(bytes: Seq<u8>) -> Option<Fields>;

/// A hexadecimal digit, in lower case.
pub open spec fn lower_hex_digit(digit: int) -> char {
    if digit < 10 {
        ('0' as int + digit) as char
    } else {
        ('a' as int + digit - 10) as char
    }
}

/// How JSON writes a character in a string.
pub open spec fn json_char(c: char) -> Seq<char> {
    if c == '"' || c == '\\' {
        seq!['\\', c]
    } else if c == '\u{8}' {
        seq!['\\', 'b']
    } else if c == '\t' {
        seq!['\\', 't']
    } else if c == '\n' {
        seq!['\\', 'n']
    } else if c == '\u{c}' {
        seq!['\\', 'f']
    } else if c == '\r' {
        seq!['\\', 'r']
    } else if (c as int) < 32 {
        seq![
            '\\',
            'u',
            '0',
            '0',
            lower_hex_digit(c as int / 16),
            lower_hex_digit(c as int % 16),
        ]
    } else {
        seq![c]
    }
}

/// How JSON writes the characters of a string.
pub open spec fn json_escaped(text: Seq<char>) -> Seq<char> {
    joined(Seq::new(text.len(), |i: int| json_char(text[i])))
}

/// The JSON text of the object whose one member `key` is the string `text`.
pub open spec fn json_object_text(key: Seq<char>, text: Seq<char>) -> Seq<char> {
    seq!['{', '"'] + json_escaped(key) + seq!['"', ':', '"'] + json_escaped(text) + seq!['"', '}']
}

/// `serde_json::Map::new` makes a map without members.
#[verifier::external_body]
pub(crate) fn map_new() -> (map: serde_json::Map<String, serde_json::Value>)
    ensures
        map_fields(map) == no_fields(),
{
    serde_json::Map::new()
}

/// `serde_json::Map::insert` sets one member, in place of an earlier one of
/// that name, and leaves the others as they are.
#[verifier::external_body]
pub(crate) fn map_insert(
    map: &mut serde_json::Map<String, serde_json::Value>,
    key: String,
    value: FieldValue,
)
    ensures
        map_fields(*final(map)) == map_fields(*old(map)).insert(key@, value@),
{
    let value = match value {
        FieldValue::Text(text) => serde_json::Value::String(text),
        FieldValue::Number(number) => serde_json::Value::from(number),
    };
    map.insert(key, value);
}

/// `serde_json::Value::Object` makes an object of the members.
#[verifier::external_body]
pub(crate) fn object(map: serde_json::Map<String, serde_json::Value>) -> (value: serde_json::Value)
    ensures
        value_fields(value) == map_fields(map),
{
    serde_json::Value::Object(map)
}

/// `serde_json::Value::as_str`, of the member that indexing finds: the string
/// that the member holds, and nothing where it is missing, is no string, or the
/// value is no object.
#[verifier::external_body]
pub(crate) fn member_str<'a>(value: &'a serde_json::Value, key: &str) -> (text: Option<&'a str>)
    ensures
        match text {
            Some(text) => text_field(value_fields(*value), key@) == Some(text@),
            None => text_field(value_fields(*value), key@) is None,
        },
{
    value[key].as_str()
}

/// `serde_json::Value::as_u64`, of the member that indexing finds: the unsigned
/// integer that the member holds, and nothing where it is missing, is no such
/// number, or the value is no object.
#[verifier::external_body]
pub(crate) fn member_u64(value: &serde_json::Value, key: &str) -> (number: Option<u64>)
    ensures
        number == number_field(value_fields(*value), key@),
{
    value[key].as_u64()
}

/// `serde_json::from_str` reads one JSON value. What it reads, and whether it
/// can, depends on the text alone, and is the same as `serde_json::from_slice`
/// reads in the bytes of the text.
#[verifier::external_body]
pub(crate) fn parse_text(text: &str) -> (value: Result<serde_json::Value, serde_json::Error>)
    ensures
        match value {
            Ok(value) => json_text_fields(text@) == Some(value_fields(value)) && json_bytes_fields(
                encode_utf8(text@),
            ) == Some(value_fields(value)),
            Err(_) => json_text_fields(text@) is None && json_bytes_fields(
                encode_utf8(text@),
            ) is None,
        },
{
    serde_json::from_str(text)
}

/// `serde_json::from_slice` reads one JSON value. What it reads, and whether it
/// can, depends on the bytes alone. It reads nothing in an empty text, nor in
/// one of ampersands, since no JSON value begins with one.
#[verifier::external_body]
pub(crate) fn parse_bytes(bytes: &[u8]) -> (value: Result<serde_json::Value, serde_json::Error>)
    ensures
        match value {
            Ok(value) => json_bytes_fields(bytes@) == Some(value_fields(value)),
            Err(_) => json_bytes_fields(bytes@) is None,
        },
        only_ampersands(bytes@) ==> value is Err,
{
    serde_json::from_slice(bytes)
}

/// `serde_json::to_string`, of an object with one member, a string. It fails
/// only for maps with keys that are no strings and for types that refuse to be
/// written, so not here. What it writes, `serde_json::from_str` reads back,
/// unless the key is one of the names that `serde_json` keeps for itself, which
/// all begin with a dollar sign.
#[verifier::external_body]
pub(crate) fn write_object(key: &str, text: &str) -> (json: Result<String, serde_json::Error>)
    ensures
        json matches Ok(json) && json@ == json_object_text(key@, text@),
        key@.len() > 0 && key@[0] != '$' ==> (json matches Ok(json) && json_text_fields(json@)
            == Some(no_fields().insert(key@, Field::Text(text@)))),
{
    let mut map = serde_json::Map::new();
    map.insert(key.to_string(), serde_json::Value::String(text.to_string()));
    serde_json::to_string(&serde_json::Value::Object(map))
}

} // verus!
