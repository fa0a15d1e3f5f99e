//! BSON documents, as far as this library writes and reads them: text,
//! 32-bit integers and dates under string keys.
//!
//! A `Document` is opaque to the verifier. Its contents are named by
//! `document_fields`, and the functions below state over that name what the
//! methods of `Document` do.

use vstd::prelude::*;
use bson::Document;
use crate::timestamp::{MAX_SECONDS, MIN_SECONDS};

verus! {

#[verifier::external_type_specification]
#[verifier::external_body]
pub struct ExDocument(bson::Document);

/// What one field of a document holds. Dates are counted in milliseconds since
/// the Unix epoch; `Other` stands for every kind of value that this library
/// does not read.
pub enum FieldValue {
    Text(Seq<char>),
    Int32(int),
    DateTime(int),
    Other,
}

/// The fields of a document: the value under each key.
pub uninterp spec fn document_fields(doc: Document) -> Map<Seq<char>, FieldValue>;

/// The fields of a document that holds none.
pub open spec fn no_fields() -> Map<Seq<char>, FieldValue> {
    Map::empty()
}

/// The outcome of looking a key up and expecting one kind of value.
pub enum Lookup<T> {
    /// The key is there and holds a value of the expected kind.
    Found(T),
    /// The key is not in the document.
    Missing,
    /// The key is there and holds a value of another kind.
    WrongKind,
}

/// The first millisecond of the year 0000.
pub const MIN_MILLIS: i64 = MIN_SECONDS * 1000;

/// The last millisecond of the year 9999.
pub const MAX_MILLIS: i64 = MAX_SECONDS * 1000 + 999;

/// `Document::new`: a document without fields.
#[verifier::external_body]
pub(crate) fn new_document() -> (r: Document)
    ensures
        document_fields(r) == no_fields(),
{
    Document::new()
}

/// `Document::insert` with a string: afterwards the key holds that text,
/// whatever it held before, and every other key holds what it held.
#[verifier::external_body]
pub(crate) fn insert_text(doc: &mut Document, key: &str, value: &str)
    ensures
        document_fields(*final(doc)) == document_fields(*old(doc)).insert(
            key@,
            FieldValue::Text(value@),
        ),
{
    doc.insert(key, value);
}

/// `Document::insert` with an `i32`: afterwards the key holds that
/// 32-bit integer, and every other key holds what it held.
#[verifier::external_body]
pub(crate) fn insert_int32(doc: &mut Document, key: &str, value: i32)
    ensures
        document_fields(*final(doc)) == document_fields(*old(doc)).insert(
            key@,
            FieldValue::Int32(value as int),
        ),
{
    doc.insert(key, value);
}

/// `Document::insert` with a UTC date: afterwards the key holds the date
/// that lies `millis` milliseconds after the Unix epoch. The date is built by
/// `chrono::DateTime::from_timestamp_millis`, which accepts every millisecond
/// of the years 0000 to 9999.
#[verifier::external_body]
pub(crate) fn insert_datetime(doc: &mut Document, key: &str, millis: i64)
    requires
        MIN_MILLIS <= millis <= MAX_MILLIS,
    ensures
        document_fields(*final(doc)) == document_fields(*old(doc)).insert(
            key@,
            FieldValue::DateTime(millis as int),
        ),
{
    doc.insert(key, chrono::DateTime::<chrono::Utc>::from_timestamp_millis(millis).unwrap());
}

/// `Document::get_str`: the text under the key, or why there is none.
#[verifier::external_body]
pub(crate) fn get_text(doc: &Document, key: &str) -> (r: Lookup<String>)
    ensures
        match r {
            Lookup::Found(text) => document_fields(*doc).contains_key(key@) && document_fields(
                *doc,
            )[key@] == FieldValue::Text(text@),
            Lookup::Missing => !document_fields(*doc).contains_key(key@),
            Lookup::WrongKind => document_fields(*doc).contains_key(key@) && !(document_fields(
                *doc,
            )[key@] is Text),
        },
{
    match doc.get_str(key) {
        Ok(text) => Lookup::Found(text.to_string()),
        Err(bson::document::ValueAccessError::NotPresent) => Lookup::Missing,
        Err(_) => Lookup::WrongKind,
    }
}

/// `Document::get_i32`: the 32-bit integer under the key, or why there
/// is none.
#[verifier::external_body]
pub(crate) fn get_int32(doc: &Document, key: &str) -> (r: Lookup<i32>)
    ensures
        match r {
            Lookup::Found(value) => document_fields(*doc).contains_key(key@) && document_fields(
                *doc,
            )[key@] == FieldValue::Int32(value as int),
            Lookup::Missing => !document_fields(*doc).contains_key(key@),
            Lookup::WrongKind => document_fields(*doc).contains_key(key@) && !(document_fields(
                *doc,
            )[key@] is Int32),
        },
{
    match doc.get_i32(key) {
        Ok(value) => Lookup::Found(value),
        Err(bson::document::ValueAccessError::NotPresent) => Lookup::Missing,
        Err(_) => Lookup::WrongKind,
    }
}

/// `Document::get_datetime`, read with `DateTime::timestamp_millis`: the
/// date under the key in milliseconds since the Unix epoch, or why there is
/// none.
#[verifier::external_body]
pub(crate) fn get_datetime(doc: &Document, key: &str) -> (r: Lookup<i64>)
    ensures
        match r {
            Lookup::Found(millis) => document_fields(*doc).contains_key(key@) && document_fields(
                *doc,
            )[key@] == FieldValue::DateTime(millis as int),
            Lookup::Missing => !document_fields(*doc).contains_key(key@),
            Lookup::WrongKind => document_fields(*doc).contains_key(key@) && !(document_fields(
                *doc,
            )[key@] is DateTime),
        },
{
    match doc.get_datetime(key) {
        Ok(date) => Lookup::Found(date.timestamp_millis()),
        Err(bson::document::ValueAccessError::NotPresent) => Lookup::Missing,
        Err(_) => Lookup::WrongKind,
    }
}

} // verus!
