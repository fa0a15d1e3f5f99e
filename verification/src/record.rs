//! The persisted shape of an observation: a document with the fields `time`,
//! `location`, `free` and `occupied`.
//!
//! The time is stored as a date with millisecond precision, the location as
//! text and each counter as a 32-bit integer.

use vstd::prelude::*;
use bson::Document;
use crate::document::{
    document_fields, get_datetime, get_int32, get_text, insert_datetime, insert_int32,
    insert_text, new_document, no_fields, FieldValue, Lookup,
};
use crate::observation::{valid_observation, Observation, VisitorCount};
use crate::timestamp::{
    in_range, lemma_millis_round_trip, millis_of, nanos_of_millis, Timestamp, NANOS_PER_MILLI,
};

verus! {

/// The key of the time of an observation.
pub const TIME_FIELD: &'static str = "time";

/// The key of the name of the location.
pub const LOCATION_FIELD: &'static str = "location";

/// The key of the free counter.
pub const FREE_FIELD: &'static str = "free";

/// The key of the occupied counter.
pub const OCCUPIED_FIELD: &'static str = "occupied";

/// A field of the persisted shape.
#[derive(Clone, Copy, Debug, PartialEq, Eq, Structural)]
pub enum Field {
    Time,
    Location,
    Free,
    Occupied,
}

/// Why a document is not the record of an observation.
#[derive(Clone, Copy, Debug, PartialEq, Eq, Structural)]
pub enum RecordError {
    /// The document has no such field.
    Missing(Field),
    /// The field holds a value of another kind than the shape asks for.
    WrongKind(Field),
    /// The time lies outside the years 0000 to 9999, or the counter is
    /// negative.
    OutOfRange(Field),
}

/// The fields of the record of an observation.
pub open spec fn record_fields(o: Observation) -> Map<Seq<char>, FieldValue> {
    no_fields().insert(TIME_FIELD@, FieldValue::DateTime(millis_of(o.time))).insert(
        LOCATION_FIELD@,
        FieldValue::Text(o.location),
    ).insert(FREE_FIELD@, FieldValue::Int32(o.free)).insert(
        OCCUPIED_FIELD@,
        FieldValue::Int32(o.occupied),
    )
}

/// The counter that a document holds under `key`.
pub open spec fn decode_counter(
    fields: Map<Seq<char>, FieldValue>,
    key: Seq<char>,
    field: Field,
) -> Result<int, RecordError> {
    if !fields.contains_key(key) {
        Err(RecordError::Missing(field))
    } else {
        match fields[key] {
            FieldValue::Int32(v) => if v < 0 {
                Err(RecordError::OutOfRange(field))
            } else {
                Ok(v)
            },
            _ => Err(RecordError::WrongKind(field)),
        }
    }
}

/// The time that a document holds, in nanoseconds since the Unix epoch.
pub open spec fn decode_time(fields: Map<Seq<char>, FieldValue>) -> Result<int, RecordError> {
    if !fields.contains_key(TIME_FIELD@) {
        Err(RecordError::Missing(Field::Time))
    } else {
        match fields[TIME_FIELD@] {
            FieldValue::DateTime(millis) => if in_range(nanos_of_millis(millis)) {
                Ok(nanos_of_millis(millis))
            } else {
                Err(RecordError::OutOfRange(Field::Time))
            },
            _ => Err(RecordError::WrongKind(Field::Time)),
        }
    }
}

/// The name of the location that a document holds.
pub open spec fn decode_location(fields: Map<Seq<char>, FieldValue>) -> Result<
    Seq<char>,
    RecordError,
> {
    if !fields.contains_key(LOCATION_FIELD@) {
        Err(RecordError::Missing(Field::Location))
    } else {
        match fields[LOCATION_FIELD@] {
            FieldValue::Text(name) => Ok(name),
            _ => Err(RecordError::WrongKind(Field::Location)),
        }
    }
}

/// The observation that a document with these fields records, or the first
/// fault among its fields, taken in the order time, location, free, occupied.
pub open spec fn decode(fields: Map<Seq<char>, FieldValue>) -> Result<Observation, RecordError> {
    match decode_time(fields) {
        Err(e) => Err(e),
        Ok(time) => match decode_location(fields) {
            Err(e) => Err(e),
            Ok(location) => match decode_counter(fields, FREE_FIELD@, Field::Free) {
                Err(e) => Err(e),
                Ok(free) => match decode_counter(fields, OCCUPIED_FIELD@, Field::Occupied) {
                    Err(e) => Err(e),
                    Ok(occupied) => Ok(Observation { time, location, free, occupied }),
                },
            },
        },
    }
}

/// Reads the counter under `key`.
fn read_counter(doc: &Document, key: &str, field: Field) -> (r: Result<i32, RecordError>)
    ensures
        match r {
            Ok(v) => decode_counter(document_fields(*doc), key@, field) == Ok::<int, RecordError>(
                v as int,
            ),
            Err(e) => decode_counter(document_fields(*doc), key@, field) == Err::<
                int,
                RecordError,
            >(e),
        },
{
    match get_int32(doc, key) {
        Lookup::Found(v) => if v < 0 {
            Err(RecordError::OutOfRange(field))
        } else {
            Ok(v)
        },
        Lookup::Missing => Err(RecordError::Missing(field)),
        Lookup::WrongKind => Err(RecordError::WrongKind(field)),
    }
}

impl VisitorCount {
    /// The record of the observation: a document with the four fields of the
    /// persisted shape, the time cut to whole milliseconds.
    pub fn to_document(&self) -> (doc: Document)
        ensures
            document_fields(doc) == record_fields(self@),
    {
        let time = self.time();
        proof {
            time.lemma_range();
            lemma_millis_round_trip(time@);
        }
        let mut doc = new_document();
        insert_datetime(&mut doc, TIME_FIELD, time.millis());
        insert_text(&mut doc, LOCATION_FIELD, self.location());
        insert_int32(&mut doc, FREE_FIELD, self.free());
        insert_int32(&mut doc, OCCUPIED_FIELD, self.occupied());
        doc
    }

    /// Reads an observation back from its record.
    ///
    /// Fails with the first fault among the fields, taken in the order time,
    /// location, free, occupied: the field is missing, holds a value of
    /// another kind, or holds a time or a counter out of range. Fields beyond
    /// these four are ignored.
    pub fn from_document(doc: &Document) -> (r: Result<VisitorCount, RecordError>)
        ensures
            match r {
                Ok(v) => decode(document_fields(*doc)) == Ok::<Observation, RecordError>(v@)
                    && v.wf(),
                Err(e) => decode(document_fields(*doc)) == Err::<Observation, RecordError>(e),
            },
    {
        let time = match get_datetime(doc, TIME_FIELD) {
            Lookup::Found(millis) => match Timestamp::from_millis(millis) {
                Some(t) => t,
                None => {
                    return Err(RecordError::OutOfRange(Field::Time));
                },
            },
            Lookup::Missing => {
                return Err(RecordError::Missing(Field::Time));
            },
            Lookup::WrongKind => {
                return Err(RecordError::WrongKind(Field::Time));
            },
        };
        let location = match get_text(doc, LOCATION_FIELD) {
            Lookup::Found(name) => name,
            Lookup::Missing => {
                return Err(RecordError::Missing(Field::Location));
            },
            Lookup::WrongKind => {
                return Err(RecordError::WrongKind(Field::Location));
            },
        };
        let free = match read_counter(doc, FREE_FIELD, Field::Free) {
            Ok(v) => v,
            Err(e) => {
                return Err(e);
            },
        };
        let occupied = match read_counter(doc, OCCUPIED_FIELD, Field::Occupied) {
            Ok(v) => v,
            Err(e) => {
                return Err(e);
            },
        };
        match VisitorCount::new(time, location.as_str(), free, occupied) {
            Some(v) => Ok(v),
            None => Err(RecordError::OutOfRange(Field::Free)),
        }
    }
}

/// The four keys of the persisted shape differ from each other.
pub proof fn lemma_keys_differ()
    ensures
        TIME_FIELD@ != LOCATION_FIELD@,
        TIME_FIELD@ != FREE_FIELD@,
        TIME_FIELD@ != OCCUPIED_FIELD@,
        LOCATION_FIELD@ != FREE_FIELD@,
        LOCATION_FIELD@ != OCCUPIED_FIELD@,
        FREE_FIELD@ != OCCUPIED_FIELD@,
{
    reveal_strlit("time");
    reveal_strlit("location");
    reveal_strlit("free");
    reveal_strlit("occupied");
    assert(TIME_FIELD@.len() == 4);
    assert(LOCATION_FIELD@.len() == 8);
    assert(FREE_FIELD@.len() == 4);
    assert(OCCUPIED_FIELD@.len() == 8);
    assert(TIME_FIELD@[0] == 't');
    assert(FREE_FIELD@[0] == 'f');
    assert(LOCATION_FIELD@[0] == 'l');
    assert(OCCUPIED_FIELD@[0] == 'o');
}

/// An observation that is written to its record and read back comes back
/// with the same location and the same counters, and with its time cut to
/// whole milliseconds: a time that is not later than the time written and
/// less than a millisecond earlier.
pub proof fn lemma_record_round_trip(o: Observation)
    requires
        valid_observation(o),
    ensures
        decode(record_fields(o)) matches Ok(back) && back.location == o.location && back.free
            == o.free && back.occupied == o.occupied && back.time == nanos_of_millis(
            millis_of(o.time),
        ) && back.time <= o.time < back.time + NANOS_PER_MILLI,
{
    lemma_keys_differ();
    lemma_millis_round_trip(o.time);
}

/// The record of an observation holds the four fields of the persisted shape
/// and no other.
pub proof fn lemma_record_shape(o: Observation)
    ensures
        record_fields(o).dom() =~= set![TIME_FIELD@, LOCATION_FIELD@, FREE_FIELD@, OCCUPIED_FIELD@],
{
}

} // verus!
