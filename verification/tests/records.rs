use climb_visitor_scraper::observation::VisitorCount;
use climb_visitor_scraper::record::{
    Field, RecordError, FREE_FIELD, LOCATION_FIELD, OCCUPIED_FIELD, TIME_FIELD,
};
use climb_visitor_scraper::timestamp::Timestamp;

fn sample() -> VisitorCount {
    VisitorCount::new(Timestamp::new(1_602_938_096, 123_456_789).unwrap(), "Kiel", 34, 12).unwrap()
}

fn date(millis: i64) -> bson::Bson {
    bson::Bson::DateTime(chrono::DateTime::from_timestamp_millis(millis).unwrap())
}

fn record(time: bson::Bson, location: bson::Bson, free: bson::Bson, occupied: bson::Bson) -> bson::Document {
    let mut doc = bson::Document::new();
    doc.insert("time", time);
    doc.insert("location", location);
    doc.insert("free", free);
    doc.insert("occupied", occupied);
    doc
}

fn error_of(doc: &bson::Document) -> RecordError {
    match VisitorCount::from_document(doc) {
        Ok(v) => panic!("read {}", v.to_line()),
        Err(e) => e,
    }
}

#[test]
fn the_record_has_the_persisted_shape() {
    let doc = sample().to_document();
    let keys: Vec<&str> = doc.keys().map(|k| k.as_str()).collect();
    assert_eq!(keys, vec!["time", "location", "free", "occupied"]);
    assert_eq!(doc.get_str("location"), Ok("Kiel"));
    assert_eq!(doc.get_i32("free"), Ok(34));
    assert_eq!(doc.get_i32("occupied"), Ok(12));
    assert_eq!(doc.get_datetime("time").unwrap().timestamp_millis(), 1_602_938_096_123);
    assert_eq!(doc.get_datetime("time").unwrap().timestamp_subsec_nanos(), 123_000_000);
}

#[test]
fn the_keys_are_those_of_the_shape() {
    assert_eq!(TIME_FIELD, "time");
    assert_eq!(LOCATION_FIELD, "location");
    assert_eq!(FREE_FIELD, "free");
    assert_eq!(OCCUPIED_FIELD, "occupied");
}

#[test]
fn a_record_reads_back_as_its_observation() {
    let back = VisitorCount::from_document(&sample().to_document()).unwrap();
    assert_eq!(back.location(), "Kiel");
    assert_eq!(back.free(), 34);
    assert_eq!(back.occupied(), 12);
    assert_eq!(back.time().seconds(), 1_602_938_096);
    assert_eq!(back.time().subsec_nanos(), 123_000_000);
}

#[test]
fn a_record_survives_the_wire_format() {
    let doc = sample().to_document();
    let mut bytes = Vec::new();
    doc.to_writer(&mut bytes).unwrap();
    let stored = bson::Document::from_reader(&mut bytes.as_slice()).unwrap();
    let back = VisitorCount::from_document(&stored).unwrap();
    assert_eq!(back.location(), "Kiel");
    assert_eq!((back.free(), back.occupied()), (34, 12));
    assert_eq!(back.time().millis(), 1_602_938_096_123);
}

#[test]
fn the_time_of_a_record_is_cut_to_milliseconds() {
    for (seconds, nanos) in [(0, 999_999), (-1, 999_999_999), (253_402_300_799, 999_999_999)] {
        let time = Timestamp::new(seconds, nanos).unwrap();
        let v = VisitorCount::new(time, "x", 1, 2).unwrap();
        let back = VisitorCount::from_document(&v.to_document()).unwrap();
        assert_eq!(back.time().millis(), time.millis());
        assert_eq!(back.time().seconds(), seconds);
        assert_eq!(back.time().subsec_nanos(), nanos / 1_000_000 * 1_000_000);
    }
}

#[test]
fn further_fields_are_ignored() {
    let mut doc = sample().to_document();
    doc.insert("_id", 77_i64);
    doc.insert("note", "counted by hand");
    let back = VisitorCount::from_document(&doc).unwrap();
    assert_eq!(back.location(), "Kiel");
}

#[test]
fn a_missing_field_is_named() {
    assert_eq!(error_of(&bson::Document::new()), RecordError::Missing(Field::Time));
    for (key, field) in [
        ("time", Field::Time),
        ("location", Field::Location),
        ("free", Field::Free),
        ("occupied", Field::Occupied),
    ] {
        let mut doc = sample().to_document();
        doc.remove(key);
        assert_eq!(error_of(&doc), RecordError::Missing(field));
    }
}

#[test]
fn a_field_of_another_kind_is_named() {
    let good = || (date(5), bson::Bson::from("Kiel"), bson::Bson::Int32(1), bson::Bson::Int32(2));
    let (_, l, f, o) = good();
    assert_eq!(
        error_of(&record(bson::Bson::from("2020-10-17T12:34:56Z"), l, f, o)),
        RecordError::WrongKind(Field::Time)
    );
    let (t, _, f, o) = good();
    assert_eq!(error_of(&record(t, bson::Bson::Int32(5), f, o)), RecordError::WrongKind(Field::Location));
    let (t, l, _, o) = good();
    assert_eq!(error_of(&record(t, l, bson::Bson::Int64(1), o)), RecordError::WrongKind(Field::Free));
    let (t, l, f, _) = good();
    assert_eq!(error_of(&record(t, l, f, bson::Bson::Null)), RecordError::WrongKind(Field::Occupied));
}

#[test]
fn a_value_out_of_range_is_named() {
    let good = || (date(5), bson::Bson::from("Kiel"), bson::Bson::Int32(1), bson::Bson::Int32(2));
    let (_, l, f, o) = good();
    assert_eq!(error_of(&record(date(253_402_300_800_000), l, f, o)), RecordError::OutOfRange(Field::Time));
    let (_, l, f, o) = good();
    assert_eq!(error_of(&record(date(-62_167_219_200_001), l, f, o)), RecordError::OutOfRange(Field::Time));
    let (t, l, _, o) = good();
    assert_eq!(error_of(&record(t, l, bson::Bson::Int32(-1), o)), RecordError::OutOfRange(Field::Free));
    let (t, l, f, _) = good();
    assert_eq!(error_of(&record(t, l, f, bson::Bson::Int32(i32::MIN))), RecordError::OutOfRange(Field::Occupied));
}

#[test]
fn the_first_fault_is_reported() {
    let doc = record(bson::Bson::Null, bson::Bson::Null, bson::Bson::Null, bson::Bson::Null);
    assert_eq!(error_of(&doc), RecordError::WrongKind(Field::Time));
    let mut doc = record(date(0), bson::Bson::Null, bson::Bson::Int32(-4), bson::Bson::Null);
    assert_eq!(error_of(&doc), RecordError::WrongKind(Field::Location));
    doc.insert("location", "Kiel");
    assert_eq!(error_of(&doc), RecordError::OutOfRange(Field::Free));
    doc.insert("free", 4);
    assert_eq!(error_of(&doc), RecordError::WrongKind(Field::Occupied));
}

#[test]
fn the_edges_of_the_range_read_back() {
    let doc = record(date(-62_167_219_200_000), bson::Bson::from(""), bson::Bson::Int32(0), bson::Bson::Int32(i32::MAX));
    let v = VisitorCount::from_document(&doc).unwrap();
    assert_eq!(v.time().seconds(), -62_167_219_200);
    assert_eq!((v.location(), v.free(), v.occupied()), ("", 0, i32::MAX));
    let doc = record(date(253_402_300_799_999), bson::Bson::from("x"), bson::Bson::Int32(0), bson::Bson::Int32(0));
    assert_eq!(VisitorCount::from_document(&doc).unwrap().time().subsec_nanos(), 999_000_000);
}
