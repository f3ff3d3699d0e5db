//! The boundary to the JSON, URL-encoding and compression crates.
//!
//! Everything in this file is believed, not proved: the declarations of the
//! outside types, the names given to what the outside functions compute, and
//! the wrappers that make the calls. The verified functions that build on
//! them are in [`crate::json`], [`crate::params`] and [`crate::service`].

use crate::json::JsonValue;
use flate2::write::GzEncoder;
use flate2::Compression;
use serde_json::{Number, Value};
use std::io::Write;
use std::string::FromUtf8Error;
use vstd::prelude::*;

verus! {

/// `serde_json::Number`: a JSON number, carried through unchanged.
#[verifier::external_type_specification]
#[verifier::external_body]
pub struct ExNumber(serde_json::Number);

/// `serde_json::Value`: a JSON document as the JSON crate holds it.
#[verifier::external_type_specification]
#[verifier::external_body]
pub struct ExValue(serde_json::Value);

/// `serde_json::Map`: the members of a JSON object as the JSON crate holds
/// them.
#[verifier::external_type_specification]
#[verifier::external_body]
#[verifier::reject_recursive_types(K)]
#[verifier::reject_recursive_types(V)]
pub struct ExMap<K, V>(serde_json::Map<K, V>);

/// `serde_json::Error`: why a text was not accepted as JSON.
#[verifier::external_type_specification]
#[verifier::external_body]
pub struct ExError(serde_json::Error);

/// `std::string::FromUtf8Error`: decoded bytes that are not UTF-8.
#[verifier::external_type_specification]
#[verifier::external_body]
pub struct ExFromUtf8Error(std::string::FromUtf8Error);

/// The map of the JSON crate with the keys and values of a JSON object.
pub type Members = serde_json::Map<String, Value>;

/// A member of a JSON object, borrowed from the map that holds it.
pub type Entry<'a> = (&'a String, &'a Value);

/// What a `serde_json::Value` holds, as a document of this crate.
pub uninterp spec fn value_content(value: Value) -> JsonValue;

/// What a `serde_json::Map` holds: the document under each name.
pub uninterp spec fn map_content(members: Members) -> Map<Seq<char>, JsonValue>;

/// What `serde_json::from_str` makes of a text: the document, or nothing
/// where the text is not JSON.
pub uninterp spec fn parsed_json(text: Seq<char>) -> Option<JsonValue>;

/// The compact JSON text that `serde_json` writes for a document.
pub uninterp spec fn json_text(value: JsonValue) -> Seq<char>;

/// The JSON number that `serde_json` makes of an unsigned integer.
pub uninterp spec fn number_of(n: u64) -> Number;

/// What `serde_json::Number::as_u64` reads from a number.
pub uninterp spec fn unsigned_of(number: Number) -> Option<u64>;

/// What `urlencoding::decode` makes of a text: the text with its percent
/// escapes replaced, or nothing where the result is not UTF-8.
pub uninterp spec fn percent_decoded(text: Seq<char>) -> Option<Seq<char>>;

/// The gzip stream that `flate2` writes for a row of bytes at its default
/// level, with the header it writes by default.
pub uninterp spec fn gzip_of(bytes: Seq<u8>) -> Seq<u8>;

/// `Clone::clone` of `serde_json::Number`: the copy is the same number.
pub assume_specification[ <serde_json::Number as Clone>::clone ](n: &serde_json::Number) -> (r:
    serde_json::Number)
    ensures
        r == *n,
;

/// `serde_json::from_str` at `serde_json::Value`. The outcome depends on the
/// text alone; an accepted text gives the value whose content is the parsed
/// document.
#[verifier::external_body]
pub(crate) fn value_from_str(text: &str) -> (r: Result<Value, serde_json::Error>)
    ensures
        match r {
            Ok(value) => parsed_json(text@) == Some(value_content(value)),
            Err(_) => parsed_json(text@) is None,
        },
{
    serde_json::from_str::<Value>(text)
}

/// `ToString::to_string` of a `serde_json::Value`, which writes compact JSON.
/// The text depends on the content of the value alone.
#[verifier::external_body]
pub(crate) fn value_to_string(value: &Value) -> (text: String)
    ensures
        text@ == json_text(value_content(*value)),
{
    value.to_string()
}

/// One level of a `serde_json::Value` as it is read: which variant it is,
/// with what the variant holds.
pub enum Seen<'a> {
    Null,
    Bool(bool),
    Number(&'a Number),
    Text(&'a String),
    Array(&'a Vec<Value>),
    Object(&'a Members),
}

/// One level of a `serde_json::Value` as it is built: which variant it
/// becomes, with what the variant is to hold.
pub enum Parts {
    Null,
    Bool(bool),
    Number(Number),
    Text(String),
    Array(Vec<Value>),
    Object(Members),
}

/// The map that a row of named documents stands for: each is put into the
/// map in turn, so a later one replaces an earlier one of the same name.
pub open spec fn named(pairs: Seq<(Seq<char>, JsonValue)>) -> Map<Seq<char>, JsonValue>
    decreases pairs.len(),
{
    if pairs.len() == 0 {
        Map::empty()
    } else {
        named(pairs.drop_last()).insert(pairs.last().0, pairs.last().1)
    }
}

/// Whether no two of a row of named documents have the same name.
pub open spec fn distinct_names(pairs: Seq<(Seq<char>, JsonValue)>) -> bool {
    forall|i: int, j: int|
        0 <= i < pairs.len() && 0 <= j < pairs.len() && i != j ==> (#[trigger] pairs[i]).0 != (
        #[trigger] pairs[j]).0
}

/// What a row of values holds, value by value.
pub open spec fn contents(values: Seq<Value>) -> Seq<JsonValue> {
    values.map_values(|value: Value| value_content(value))
}

/// What a row of members holds, member by member.
pub open spec fn entries(members: Seq<Entry>) -> Seq<(Seq<char>, JsonValue)> {
    members.map_values(|member: Entry| (member.0@, value_content(*member.1)))
}

/// What one level of a value that was read holds.
pub open spec fn seen_content(seen: Seen) -> JsonValue {
    match seen {
        Seen::Null => JsonValue::Null,
        Seen::Bool(b) => JsonValue::Bool(b),
        Seen::Number(n) => JsonValue::Number(*n),
        Seen::Text(s) => JsonValue::Text(s@),
        Seen::Array(items) => JsonValue::Array(contents(items@)),
        Seen::Object(members) => JsonValue::Object(map_content(*members)),
    }
}

/// What one level of a value that is built holds.
pub open spec fn parts_content(parts: Parts) -> JsonValue {
    match parts {
        Parts::Null => JsonValue::Null,
        Parts::Bool(b) => JsonValue::Bool(b),
        Parts::Number(n) => JsonValue::Number(n),
        Parts::Text(s) => JsonValue::Text(s@),
        Parts::Array(items) => JsonValue::Array(contents(items@)),
        Parts::Object(members) => JsonValue::Object(map_content(members)),
    }
}

/// Tells the variants of a `serde_json::Value` apart and hands out what
/// the variant holds.
#[verifier::external_body]
pub(crate) fn look_at<'a>(value: &'a Value) -> (seen: Seen<'a>)
    ensures
        seen_content(seen) == value_content(*value),
{
    match value {
        Value::Null => Seen::Null,
        Value::Bool(b) => Seen::Bool(*b),
        Value::Number(n) => Seen::Number(n),
        Value::String(s) => Seen::Text(s),
        Value::Array(a) => Seen::Array(a),
        Value::Object(m) => Seen::Object(m),
    }
}

/// Makes the `serde_json::Value` of a variant with what it is to hold.
#[verifier::external_body]
pub(crate) fn put_together(parts: Parts) -> (value: Value)
    ensures
        value_content(value) == parts_content(parts),
{
    match parts {
        Parts::Null => Value::Null,
        Parts::Bool(b) => Value::Bool(b),
        Parts::Number(n) => Value::Number(n),
        Parts::Text(s) => Value::String(s),
        Parts::Array(a) => Value::Array(a),
        Parts::Object(m) => Value::Object(m),
    }
}

/// `serde_json::Map::new`: a map without members.
#[verifier::external_body]
pub(crate) fn map_new() -> (members: Members)
    ensures
        map_content(members) == named(Seq::empty()),
{
    serde_json::Map::new()
}

/// `serde_json::Map::insert`: the map holds the value under the name
/// afterwards, in place of what it held there before, and is otherwise as
/// it was.
#[verifier::external_body]
pub(crate) fn map_insert(members: &mut Members, name: String, value: Value)
    ensures
        map_content(*final(members)) == map_content(*old(members)).insert(
            name@,
            value_content(value),
        ),
{
    members.insert(name, value);
}

/// `serde_json::Map::iter`, collected: the members of the map, each name
/// once, with the value that the map holds under it.
#[verifier::external_body]
pub(crate) fn map_entries<'a>(members: &'a Members) -> (list: Vec<Entry<'a>>)
    ensures
        named(entries(list@)) == map_content(*members),
        distinct_names(entries(list@)),
{
    members.iter().collect()
}

/// `From<u64>` of `serde_json::Number`.
#[verifier::external_body]
pub(crate) fn number_from_u64(n: u64) -> (number: Number)
    ensures
        number == number_of(n),
{
    Number::from(n)
}

/// `serde_json::Number::as_u64`: the number as an unsigned integer, where it
/// is one.
#[verifier::external_body]
pub(crate) fn number_as_u64(number: &Number) -> (n: Option<u64>)
    ensures
        n == unsigned_of(*number),
{
    number.as_u64()
}

/// `urlencoding::decode`, with the decoded text as an owned `String`. The
/// outcome depends on the text alone.
#[verifier::external_body]
pub(crate) fn percent_decode(text: &str) -> (r: Result<String, FromUtf8Error>)
    ensures
        match r {
            Ok(decoded) => percent_decoded(text@) == Some(decoded@),
            Err(_) => percent_decoded(text@) is None,
        },
{
    urlencoding::decode(text).map(|decoded| decoded.into_owned())
}

/// `flate2::write::GzEncoder` over a `Vec` at the default level: all bytes
/// are written to it and the stream is finished. The stream depends on the
/// bytes alone.
#[verifier::external_body]
pub(crate) fn gzip(bytes: &[u8]) -> (packed: Vec<u8>)
    ensures
        packed@ == gzip_of(bytes@),
{
    let mut encoder = GzEncoder::new(Vec::new(), Compression::default());
    encoder.write_all(bytes).unwrap();
    encoder.finish().unwrap()
}

} // verus!
