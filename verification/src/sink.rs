//! The observation sink's decisions: which calls a batch of observations
//! turns into.
//!
//! A batch-append store gets the whole batch in one call, as one record per
//! observation. A point-write store gets one call per observation, each a
//! point of a time series that is tagged with the location.

use vstd::prelude::*;
use bson::Document;
use crate::document::{document_fields, FieldValue};
use crate::observation::{Observation, VisitorCount};
use crate::record::record_fields;

verus! {

/// The shape of the store that receives the observations.
#[derive(Clone, Copy, Debug, PartialEq, Eq, Structural)]
pub enum Backend {
    /// A document or row store: one insert of many records per tick.
    BatchAppend,
    /// A time-series store: one write per observation.
    PointWrite,
}

/// Why the store did not take what it was handed.
#[derive(Clone, Copy, Debug, PartialEq, Eq, Structural)]
pub enum SinkError {
    /// The insert of a batch of this many records failed, as a whole or in
    /// part: which records were taken is not known.
    Batch { records: usize },
    /// The write of the point number `index` of its tick failed.
    Point { index: usize },
}

/// A point of a time series: an observation in the series `measurement`. The
/// location of the observation is the tag of the point, its time is the
/// timestamp, and the two counters are the fields.
#[derive(Debug)]
pub struct Point {
    pub measurement: String,
    pub observation: VisitorCount,
}

/// The mathematical value of a `Point`.
pub struct PointView {
    pub measurement: Seq<char>,
    pub observation: Observation,
}

impl View for Point {
    type V = PointView;

    open spec fn view(&self) -> PointView {
        PointView { measurement: self.measurement@, observation: self.observation@ }
    }
}

/// One call of the store.
#[derive(Debug)]
pub enum SinkCall {
    /// Insert these records, in this order, at once.
    InsertMany(Vec<Document>),
    /// Write this point.
    WritePoint(Point),
}

/// The mathematical value of a `SinkCall`: each record by its fields.
pub enum SinkCallView {
    InsertMany(Seq<Map<Seq<char>, FieldValue>>),
    WritePoint(PointView),
}

/// The fields of each document of a sequence.
pub open spec fn fields_of(docs: Seq<Document>) -> Seq<Map<Seq<char>, FieldValue>> {
    docs.map_values(|d: Document| document_fields(d))
}

impl View for SinkCall {
    type V = SinkCallView;

    open spec fn view(&self) -> SinkCallView {
        match self {
            SinkCall::InsertMany(docs) => SinkCallView::InsertMany(fields_of(docs@)),
            SinkCall::WritePoint(point) => SinkCallView::WritePoint(point@),
        }
    }
}

/// The views of the observations of a batch.
pub open spec fn observations_of(batch: Seq<VisitorCount>) -> Seq<Observation> {
    batch.map_values(|v: VisitorCount| v@)
}

/// The views of the calls of a plan.
pub open spec fn calls_of(plan: Seq<SinkCall>) -> Seq<SinkCallView> {
    plan.map_values(|c: SinkCall| c@)
}

/// The point that an observation becomes in the series `measurement`.
pub open spec fn point_of(measurement: Seq<char>, o: Observation) -> PointView {
    PointView { measurement, observation: o }
}

/// The records of a batch, one per observation and in the same order.
pub open spec fn records_of(batch: Seq<Observation>) -> Seq<Map<Seq<char>, FieldValue>> {
    batch.map_values(|o: Observation| record_fields(o))
}

/// The calls that a batch turns into: one insert of all its records for a
/// batch-append store, one write per observation for a point-write store.
pub open spec fn plan(backend: Backend, measurement: Seq<char>, batch: Seq<Observation>) -> Seq<
    SinkCallView,
> {
    match backend {
        Backend::BatchAppend => seq![SinkCallView::InsertMany(records_of(batch))],
        Backend::PointWrite => batch.map_values(
            |o: Observation| SinkCallView::WritePoint(point_of(measurement, o)),
        ),
    }
}

/// The error that stands for the failure of the call number `index` of the
/// plan for a batch of `records` observations.
pub open spec fn failure_of(backend: Backend, records: int, index: int) -> SinkError {
    match backend {
        Backend::BatchAppend => SinkError::Batch { records: records as usize },
        Backend::PointWrite => SinkError::Point { index: index as usize },
    }
}

/// The point of one observation.
pub fn to_point(measurement: &str, v: &VisitorCount) -> (p: Point)
    ensures
        p@ == point_of(measurement@, v@),
{
    Point { measurement: measurement.to_owned(), observation: v.duplicate() }
}

/// The records of a batch.
pub fn to_records(batch: &Vec<VisitorCount>) -> (docs: Vec<Document>)
    ensures
        fields_of(docs@) == records_of(observations_of(batch@)),
{
    let mut docs: Vec<Document> = Vec::new();
    let mut i: usize = 0;
    while i < batch.len()
        invariant
            i <= batch.len(),
            docs.len() == i,
            forall|j: int|
                0 <= j < i ==> document_fields(#[trigger] docs[j]) == record_fields(batch[j]@),
        decreases batch.len() - i,
    {
        docs.push(batch[i].to_document());
        i = i + 1;
    }
    assert(fields_of(docs@) =~= records_of(observations_of(batch@)));
    docs
}

/// Plans the calls that hand a batch to the store.
pub fn plan_writes(backend: Backend, measurement: &str, batch: &Vec<VisitorCount>) -> (calls: Vec<
    SinkCall,
>)
    ensures
        calls_of(calls@) == plan(backend, measurement@, observations_of(batch@)),
{
    let mut calls: Vec<SinkCall> = Vec::new();
    match backend {
        Backend::BatchAppend => {
            calls.push(SinkCall::InsertMany(to_records(batch)));
            assert(calls_of(calls@) =~= plan(backend, measurement@, observations_of(batch@)));
        },
        Backend::PointWrite => {
            let mut i: usize = 0;
            while i < batch.len()
                invariant
                    i <= batch.len(),
                    calls.len() == i,
                    forall|j: int|
                        0 <= j < i ==> (#[trigger] calls[j])@ == SinkCallView::WritePoint(
                            point_of(measurement@, batch[j]@),
                        ),
                decreases batch.len() - i,
            {
                calls.push(SinkCall::WritePoint(to_point(measurement, &batch[i])));
                i = i + 1;
            }
            assert(calls_of(calls@) =~= plan(backend, measurement@, observations_of(batch@)));
        },
    }
    calls
}

/// A batch-append store gets exactly one call, whatever the size of the
/// batch, and that call carries one record per observation, in the order of
/// the batch.
pub proof fn lemma_batch_append_is_one_call(measurement: Seq<char>, batch: Seq<Observation>)
    ensures
        plan(Backend::BatchAppend, measurement, batch).len() == 1,
        plan(Backend::BatchAppend, measurement, batch)[0] matches SinkCallView::InsertMany(records)
            && records.len() == batch.len() && forall|i: int|
            0 <= i < batch.len() ==> #[trigger] records[i] == record_fields(batch[i]),
{
}

/// A point-write store gets exactly one call per observation, in the order of
/// the batch, and each call carries its observation whole: the location, the
/// time and both counters.
pub proof fn lemma_point_write_is_one_call_each(measurement: Seq<char>, batch: Seq<Observation>)
    ensures
        plan(Backend::PointWrite, measurement, batch).len() == batch.len(),
        forall|i: int|
            0 <= i < batch.len() ==> (#[trigger] plan(Backend::PointWrite, measurement, batch)[i]
                matches SinkCallView::WritePoint(p) && p.measurement == measurement && p.observation
                == batch[i]),
{
}

} // verus!
