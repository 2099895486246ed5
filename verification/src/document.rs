//! The boundary to the document store's data format.
//!
//! Stored records, filters and update commands are BSON documents. This module
//! gives such a document a mathematical model, a map from field names to
//! [`Value`]s, and states over that model what each document operation used by
//! the rest of the crate does. The operations themselves are not verified: every
//! function here is a thin call into the `bson` crate whose contract is assumed.

use mongodb::bson::Bson;
use mongodb::bson::DateTime;
use mongodb::bson::Document;
use vstd::prelude::*;

verus! {

#[verifier::external_type_specification]
#[verifier::external_body]
pub struct ExDocument(Document);

#[verifier::external_type_specification]
#[verifier::external_body]
pub struct ExBson(Bson);

/// What a field of a document holds, as far as this crate reads or writes it.
pub enum Value {
    /// A 64-bit float, given by its IEEE-754 bit pattern.
    Double(u64),
    /// A UTF-8 string.
    Text(Seq<char>),
    /// An embedded document.
    Nested(Map<Seq<char>, Value>),
    /// A boolean.
    Boolean(bool),
    /// A 32-bit signed integer.
    Int32(i32),
    /// A 64-bit signed integer.
    Int64(i64),
    /// A UTC date and time, in milliseconds since the Unix epoch.
    DateTime(i64),
    /// A value of any other BSON type.
    Other,
}

/// The fields of a document: field name to value.
pub type Fields = Map<Seq<char>, Value>;

/// The fields that a document holds.
pub uninterp spec fn doc_fields(d: Document) -> Map<Seq<char>, Value>;

/// The value that a BSON value stands for.
pub uninterp spec fn bson_value(b: Bson) -> Value;

/// The fields of a document that holds nothing.
pub open spec fn no_fields() -> Fields {
    Map::empty()
}

/// `Document::new`: the new document holds no field.
#[verifier::external_body]
pub(crate) fn new_document() -> (d: Document)
    ensures
        doc_fields(d) == no_fields(),
{
    Document::new()
}

/// `Document::insert`: the field `key` holds `value` afterwards, whether or not
/// the document had such a field before; every other field is as it was.
#[verifier::external_body]
pub(crate) fn insert(d: &mut Document, key: &str, value: Bson)
    ensures
        doc_fields(*final(d)) == doc_fields(*old(d)).insert(key@, bson_value(value)),
{
    d.insert(key, value);
}

/// `Bson::from` on an `i64`: a 64-bit integer value.
#[verifier::external_body]
pub(crate) fn int64_value(v: i64) -> (b: Bson)
    ensures
        bson_value(b) == Value::Int64(v),
{
    Bson::from(v)
}

/// `Bson::from` on a `String`: a string value with the same text.
#[verifier::external_body]
pub(crate) fn text_value(s: String) -> (b: Bson)
    ensures
        bson_value(b) == Value::Text(s@),
{
    Bson::from(s)
}

/// `Bson::from` on a `bool`: a boolean value.
#[verifier::external_body]
pub(crate) fn boolean_value(v: bool) -> (b: Bson)
    ensures
        bson_value(b) == Value::Boolean(v),
{
    Bson::from(v)
}

/// `Bson::from` on a `Document`: an embedded document with the same fields.
#[verifier::external_body]
pub(crate) fn nested_value(d: Document) -> (b: Bson)
    ensures
        bson_value(b) == Value::Nested(doc_fields(d)),
{
    Bson::from(d)
}

/// `DateTime::from_millis`, then `Bson::from`: a date-time value that many
/// milliseconds after the Unix epoch.
#[verifier::external_body]
pub(crate) fn datetime_value(millis: i64) -> (b: Bson)
    ensures
        bson_value(b) == Value::DateTime(millis),
{
    Bson::from(DateTime::from_millis(millis))
}

/// `Document::get`: the value under `key`, if the document has such a field.
#[verifier::external_body]
pub(crate) fn get<'a>(d: &'a Document, key: &str) -> (r: Option<&'a Bson>)
    ensures
        r is Some == doc_fields(*d).contains_key(key@),
        r matches Some(b) ==> bson_value(*b) == doc_fields(*d)[key@],
{
    d.get(key)
}

/// `Bson::as_str`: the text of a string value, nothing for any other value.
#[verifier::external_body]
pub(crate) fn as_str<'a>(b: &'a Bson) -> (r: Option<&'a str>)
    ensures
        r is Some == bson_value(*b) is Text,
        r matches Some(s) ==> bson_value(*b) == Value::Text(s@),
{
    b.as_str()
}

/// `Document::get_i32`, its error dropped: the integer under `key`, if the
/// field is there and holds a 32-bit integer.
#[verifier::external_body]
pub(crate) fn get_i32(d: &Document, key: &str) -> (r: Option<i32>)
    ensures
        r == stored_int32(doc_fields(*d), key@),
{
    d.get_i32(key).ok()
}

/// `Document::get_i64`, its error dropped: the integer under `key`, if the
/// field is there and holds a 64-bit integer.
#[verifier::external_body]
pub(crate) fn get_i64(d: &Document, key: &str) -> (r: Option<i64>)
    ensures
        r == stored_int64(doc_fields(*d), key@),
{
    d.get_i64(key).ok()
}

/// `Document::get_str`, its error dropped: the text under `key`, if the field
/// is there and holds a string.
#[verifier::external_body]
pub(crate) fn get_str<'a>(d: &'a Document, key: &str) -> (r: Option<&'a str>)
    ensures
        r is Some == stored_text(doc_fields(*d), key@) is Some,
        r matches Some(s) ==> stored_text(doc_fields(*d), key@) == Some(s@),
{
    d.get_str(key).ok()
}

/// `Document::get_datetime`, its error dropped, then
/// `DateTime::timestamp_millis`: the milliseconds since the Unix epoch of the
/// date-time under `key`, if the field is there and holds a date-time.
#[verifier::external_body]
pub(crate) fn get_datetime(d: &Document, key: &str) -> (r: Option<i64>)
    ensures
        r == stored_datetime(doc_fields(*d), key@),
{
    match d.get_datetime(key) {
        Ok(at) => Some(at.timestamp_millis()),
        Err(_) => None,
    }
}

/// `Document::get_f64`, its error dropped, then `to_bits`: the bit pattern of
/// the float under `key`, if the field is there and holds a 64-bit float.
#[verifier::external_body]
pub(crate) fn get_double_bits(d: &Document, key: &str) -> (r: Option<u64>)
    ensures
        r == stored_double(doc_fields(*d), key@),
{
    match d.get_f64(key) {
        Ok(number) => Some(number.to_bits()),
        Err(_) => None,
    }
}

/// The 32-bit integer that `fields` holds under `key`, if any.
pub open spec fn stored_int32(fields: Fields, key: Seq<char>) -> Option<i32> {
    match fields.get(key) {
        Some(Value::Int32(v)) => Some(v),
        _ => None,
    }
}

/// The 64-bit integer that `fields` holds under `key`, if any.
pub open spec fn stored_int64(fields: Fields, key: Seq<char>) -> Option<i64> {
    match fields.get(key) {
        Some(Value::Int64(v)) => Some(v),
        _ => None,
    }
}

/// The text that `fields` holds under `key`, if any.
pub open spec fn stored_text(fields: Fields, key: Seq<char>) -> Option<Seq<char>> {
    match fields.get(key) {
        Some(Value::Text(s)) => Some(s),
        _ => None,
    }
}

/// The date-time that `fields` holds under `key`, if any, in milliseconds
/// since the Unix epoch.
pub open spec fn stored_datetime(fields: Fields, key: Seq<char>) -> Option<i64> {
    match fields.get(key) {
        Some(Value::DateTime(ms)) => Some(ms),
        _ => None,
    }
}

/// The bit pattern of the 64-bit float that `fields` holds under `key`, if any.
pub open spec fn stored_double(fields: Fields, key: Seq<char>) -> Option<u64> {
    match fields.get(key) {
        Some(Value::Double(bits)) => Some(bits),
        _ => None,
    }
}

} // verus!
