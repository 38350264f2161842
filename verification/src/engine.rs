//! The four operations of a storage, each cut at its exchanges with the
//! database: what to send first, what to do with the answer, and what to
//! report in the end. Sending and waiting are the caller's part.

use crate::key_codec::{
    influx_regex, influx_regex_all, key_view, series_name_of, to_series_name, KeyExpr,
};
use crate::point::{
    data_view, decode_entries, decode_series, decoded_entries, decoded_series, del_point,
    entries_view, put_point, series_view, Point, PointView, Serie, StoredData, StoredDataView,
};
use crate::query::{Query, QueryView};
use crate::time_range::{clauses_from_parameters, clauses_of, range_of_parameters};
use crate::timestamp::{not_later, ntp_nanos, timestamp_of_text, Timestamp};
use crate::value::Value;
use vstd::prelude::*;

verus! {

/// Delay between a delete and the check that may remove the series.
pub const DROP_MEASUREMENT_TIMEOUT_MS: u64 = 5000;

/// What a put or a delete reports when it succeeds.
#[derive(Clone, Copy, Debug, PartialEq, Eq, Structural)]
pub enum StorageInsertionResult {
    /// The value is older than a deletion of its key and was not written.
    Outdated,
    /// The value was written.
    Inserted,
    /// The deletion was recorded.
    Deleted,
}

/// Why an operation failed.
pub enum StorageError {
    /// The database refused a statement or could not be reached.
    BackendUnavailable { message: String },
    /// What the database holds cannot be read.
    Decode { text: String },
}

/// The mathematical value of a [`StorageError`].
pub enum StorageErrorView {
    BackendUnavailable { message: Seq<char> },
    Decode { text: Seq<char> },
}

impl View for StorageError {
    type V = StorageErrorView;

    open spec fn view(&self) -> StorageErrorView {
        match *self {
            StorageError::BackendUnavailable { message } => StorageErrorView::BackendUnavailable {
                message: message@,
            },
            StorageError::Decode { text } => StorageErrorView::Decode { text: text@ },
        }
    }
}

/// The view of the answer to a statement that returns nothing.
pub open spec fn done_view(reply: Result<(), String>) -> Result<(), Seq<char>> {
    match reply {
        Ok(_) => Ok(()),
        Err(message) => Err(message@),
    }
}

/// The view of the answer to the question for the latest tombstone.
pub open spec fn deletion_view(reply: Result<Option<String>, String>) -> Result<
    Option<Seq<char>>,
    Seq<char>,
> {
    match reply {
        Ok(Some(text)) => Ok(Some(text@)),
        Ok(None) => Ok(None),
        Err(message) => Err(message@),
    }
}

/// The view of the answer to a selection.
pub open spec fn rows_reply_view(reply: Result<Vec<Serie>, String>) -> Result<
    Seq<crate::point::SerieView>,
    Seq<char>,
> {
    match reply {
        Ok(series) => Ok(series_view(series@)),
        Err(message) => Err(message@),
    }
}

/// The statement that asks for the latest tombstone of a series.
pub fn deletion_query(series: &str) -> (q: Query)
    ensures
        q@ == (QueryView::LatestDeletion { series: series@ }),
{
    Query::LatestDeletion { series: series.to_owned() }
}

/// What the answer to [`deletion_query`] says: the timestamp of the latest
/// deletion, none where the series has no tombstone, and a failure where
/// the statement failed or the timestamp cannot be read.
pub open spec fn deletion_of(reply: Result<Option<Seq<char>>, Seq<char>>) -> Result<
    Option<Timestamp>,
    StorageErrorView,
> {
    match reply {
        Err(message) => Err(StorageErrorView::BackendUnavailable { message }),
        Ok(None) => Ok(None),
        Ok(Some(text)) => match timestamp_of_text(text) {
            Some(t) => Ok(Some(t)),
            None => Err(StorageErrorView::Decode { text }),
        },
    }
}

/// The view of a timestamp that was read, or of the failure to read it.
pub open spec fn deletion_result_view(r: Result<Option<Timestamp>, StorageError>) -> Result<
    Option<Timestamp>,
    StorageErrorView,
> {
    match r {
        Ok(t) => Ok(t),
        Err(e) => Err(e@),
    }
}

/// Reads the answer to [`deletion_query`].
pub fn get_deletion_timestamp(reply: Result<Option<String>, String>) -> (r: Result<
    Option<Timestamp>,
    StorageError,
>)
    ensures
        deletion_result_view(r) == deletion_of(deletion_view(reply)),
{
    match reply {
        Err(message) => Err(StorageError::BackendUnavailable { message }),
        Ok(None) => Ok(None),
        Ok(Some(text)) => match Timestamp::parse(text.as_str()) {
            Some(t) => Ok(Some(t)),
            None => Err(StorageError::Decode { text }),
        },
    }
}

/// Whether a put at `timestamp` comes too late: the key was deleted at that
/// timestamp or at a later one.
pub open spec fn stale(deletion: Option<Timestamp>, timestamp: Timestamp) -> bool {
    deletion matches Some(d) && not_later(timestamp, d)
}

/// Whether a put at `timestamp` comes too late after the latest deletion.
pub fn is_stale(deletion: &Option<Timestamp>, timestamp: &Timestamp) -> (r: bool)
    ensures
        r == stale(*deletion, *timestamp),
{
    match deletion {
        Some(d) => timestamp.is_not_later(d),
        None => false,
    }
}

/// What a put does once it knows the latest deletion.
pub enum PutStep {
    /// Write this point, then report with [`put_finish`].
    Write { point: Point },
    /// Write nothing and report this.
    Finish { result: Result<StorageInsertionResult, StorageError> },
}

/// The mathematical value of a [`PutStep`].
pub enum PutStepView {
    Write { point: PointView },
    Finish { result: Result<StorageInsertionResult, StorageErrorView> },
}

/// The view of what an operation reports.
pub open spec fn result_view(r: Result<StorageInsertionResult, StorageError>) -> Result<
    StorageInsertionResult,
    StorageErrorView,
> {
    match r {
        Ok(x) => Ok(x),
        Err(e) => Err(e@),
    }
}

impl View for PutStep {
    type V = PutStepView;

    open spec fn view(&self) -> PutStepView {
        match *self {
            PutStep::Write { point } => PutStepView::Write { point: point@ },
            PutStep::Finish { result } => PutStepView::Finish { result: result_view(result) },
        }
    }
}

/// The first statement of a put: the question for the latest tombstone of
/// the key's series.
pub fn put_begin(key: &Option<KeyExpr>) -> (q: Query)
    ensures
        q@ == (QueryView::LatestDeletion { series: series_name_of(key_view(*key)) }),
{
    let series = to_series_name(key);
    deletion_query(series.as_str())
}

/// What a put does with the answer about the latest tombstone: it fails
/// where the answer is a failure, reports `Outdated` without writing where
/// the key was deleted at the put's timestamp or later, and else writes the
/// point of the put.
pub open spec fn put_decision(
    series: Seq<char>,
    payload: Seq<u8>,
    encoding: crate::value::EncodingView,
    timestamp: Timestamp,
    reply: Result<Option<Seq<char>>, Seq<char>>,
) -> PutStepView {
    match deletion_of(reply) {
        Err(e) => PutStepView::Finish { result: Err(e) },
        Ok(deletion) => if stale(deletion, timestamp) {
            PutStepView::Finish { result: Ok(StorageInsertionResult::Outdated) }
        } else {
            PutStepView::Write { point: put_point(series, payload, encoding, timestamp) }
        },
    }
}

/// Decides what a put does, from the answer to [`put_begin`].
pub fn put_decide(
    key: &Option<KeyExpr>,
    value: &Value,
    timestamp: &Timestamp,
    reply: Result<Option<String>, String>,
) -> (step: PutStep)
    requires
        timestamp.wf(),
    ensures
        step@ == put_decision(
            series_name_of(key_view(*key)),
            value.payload@,
            value.encoding@,
            *timestamp,
            deletion_view(reply),
        ),
        step matches PutStep::Write { point } ==> timestamp_of_text(point.timestamp@) == Some(
            *timestamp,
        ) && point.time == ntp_nanos(timestamp.time),
{
    match get_deletion_timestamp(reply) {
        Err(e) => PutStep::Finish { result: Err(e) },
        Ok(deletion) => {
            if is_stale(&deletion, timestamp) {
                PutStep::Finish { result: Ok(StorageInsertionResult::Outdated) }
            } else {
                let series = to_series_name(key);
                PutStep::Write { point: Point::put(series.as_str(), value, timestamp) }
            }
        },
    }
}

/// What a put reports once its point was handed to the database, or to the
/// pipeline that batches writes.
pub open spec fn put_report(reply: Result<(), Seq<char>>) -> Result<
    StorageInsertionResult,
    StorageErrorView,
> {
    match reply {
        Ok(_) => Ok(StorageInsertionResult::Inserted),
        Err(message) => Err(StorageErrorView::BackendUnavailable { message }),
    }
}

/// Reports a put whose point was written, or failed to be.
pub fn put_finish(reply: Result<(), String>) -> (r: Result<StorageInsertionResult, StorageError>)
    ensures
        result_view(r) == put_report(done_view(reply)),
{
    match reply {
        Ok(_) => Ok(StorageInsertionResult::Inserted),
        Err(message) => Err(StorageError::BackendUnavailable { message }),
    }
}

/// The first statement of a delete: it removes the points of the key's
/// series that are filed before the deletion.
pub fn delete_begin(key: &Option<KeyExpr>, timestamp: &Timestamp) -> (q: Query)
    ensures
        q@ == (QueryView::DeleteBefore {
            series: series_name_of(key_view(*key)),
            time: ntp_nanos(timestamp.time) as u64,
        }),
{
    Query::DeleteBefore { series: to_series_name(key), time: timestamp.nanos() }
}

/// What a delete does after its first statement.
pub enum DeleteStep {
    /// Write this tombstone, then report with [`delete_finish`].
    Write { point: Point },
    /// Write nothing and report this failure.
    Fail { error: StorageError },
}

/// The mathematical value of a [`DeleteStep`].
pub enum DeleteStepView {
    Write { point: PointView },
    Fail { error: StorageErrorView },
}

impl View for DeleteStep {
    type V = DeleteStepView;

    open spec fn view(&self) -> DeleteStepView {
        match *self {
            DeleteStep::Write { point } => DeleteStepView::Write { point: point@ },
            DeleteStep::Fail { error } => DeleteStepView::Fail { error: error@ },
        }
    }
}

/// What a delete does once the older points are removed: it writes the
/// tombstone; where the removal failed it fails and writes nothing.
pub open spec fn delete_decision(
    series: Seq<char>,
    timestamp: Timestamp,
    reply: Result<(), Seq<char>>,
) -> DeleteStepView {
    match reply {
        Ok(_) => DeleteStepView::Write { point: del_point(series, timestamp) },
        Err(message) => DeleteStepView::Fail {
            error: StorageErrorView::BackendUnavailable { message },
        },
    }
}

/// Decides what a delete does, from the answer to [`delete_begin`].
pub fn delete_mark(key: &Option<KeyExpr>, timestamp: &Timestamp, reply: Result<(), String>) -> (step:
    DeleteStep)
    requires
        timestamp.wf(),
    ensures
        step@ == delete_decision(series_name_of(key_view(*key)), *timestamp, done_view(reply)),
        step matches DeleteStep::Write { point } ==> timestamp_of_text(point.timestamp@) == Some(
            *timestamp,
        ) && point.time == ntp_nanos(timestamp.time),
{
    match reply {
        Ok(_) => {
            let series = to_series_name(key);
            DeleteStep::Write { point: Point::del(series.as_str(), timestamp) }
        },
        Err(message) => DeleteStep::Fail { error: StorageError::BackendUnavailable { message } },
    }
}

/// The check that is due some time after a delete.
pub struct Compaction {
    pub series: String,
    pub delay_ms: u64,
}

/// How a delete ends.
pub struct DeleteEnd {
    /// What the delete reports.
    pub result: Result<StorageInsertionResult, StorageError>,
    /// The check to schedule, where the delete succeeded.
    pub compaction: Option<Compaction>,
}

/// What a delete reports once its tombstone was handed to the database.
pub open spec fn delete_report(reply: Result<(), Seq<char>>) -> Result<
    StorageInsertionResult,
    StorageErrorView,
> {
    match reply {
        Ok(_) => Ok(StorageInsertionResult::Deleted),
        Err(message) => Err(StorageErrorView::BackendUnavailable { message }),
    }
}

/// Ends a delete whose tombstone was written, or failed to be: with the
/// tombstone written it reports `Deleted` and asks for the check of the
/// series after the delay; else it fails and asks for none.
pub fn delete_finish(key: &Option<KeyExpr>, reply: Result<(), String>) -> (end: DeleteEnd)
    ensures
        result_view(end.result) == delete_report(done_view(reply)),
        match end.compaction {
            Some(c) => reply is Ok && c.series@ == series_name_of(key_view(*key)) && c.delay_ms
                == DROP_MEASUREMENT_TIMEOUT_MS,
            None => reply is Err,
        },
{
    match reply {
        Ok(_) => DeleteEnd {
            result: Ok(StorageInsertionResult::Deleted),
            compaction: Some(
                Compaction { series: to_series_name(key), delay_ms: DROP_MEASUREMENT_TIMEOUT_MS },
            ),
        },
        Err(message) => DeleteEnd {
            result: Err(StorageError::BackendUnavailable { message }),
            compaction: None,
        },
    }
}

/// What the database answered when it was asked for a point of a series
/// that is no tombstone.
#[derive(Clone, Copy, Debug, PartialEq, Eq, Structural)]
pub enum Probe {
    /// It returned such a point.
    Live,
    /// It returned none.
    Empty,
    /// Its answer could not be read.
    Unreadable,
    /// The statement failed.
    Failed,
}

/// The statement with which the check of a series begins.
pub fn compaction_probe(series: &str) -> (q: Query)
    ensures
        q@ == (QueryView::ProbeLive { series: series@ }),
{
    Query::ProbeLive { series: series.to_owned() }
}

/// Whether the check removes the series: only when the database said that
/// nothing but tombstones is left.
pub open spec fn removes_series(probe: Probe) -> bool {
    probe == Probe::Empty
}

/// Ends the check of a series: the statement that removes it, where it
/// holds nothing but tombstones, else nothing.
pub fn drop_measurement(series: &str, probe: Probe) -> (q: Option<Query>)
    ensures
        match q {
            Some(q) => removes_series(probe) && q@ == (QueryView::DropMeasurement {
                series: series@,
            }),
            None => !removes_series(probe),
        },
{
    match probe {
        Probe::Empty => Some(Query::DropMeasurement { series: series.to_owned() }),
        _ => None,
    }
}

/// The statement of a get: all points of the key's series that the filter
/// for the parameters lets through.
pub fn get_begin(key: &Option<KeyExpr>, parameters: &str) -> (q: Query)
    ensures
        q@ == (QueryView::Select {
            pattern: influx_regex(seq![series_name_of(key_view(*key))]),
            clauses: clauses_of(range_of_parameters(parameters@)),
        }),
{
    let series = to_series_name(key);
    let pattern = crate::key_codec::text_to_influx_regex(series.as_str());
    Query::Select { pattern, clauses: clauses_from_parameters(parameters) }
}

/// The second statement of a get, sent after the first: the latest
/// tombstone of the key's series. What a get returns is decided by the
/// timestamps of the values and of that tombstone.
pub fn get_tombstones(key: &Option<KeyExpr>) -> (q: Query)
    ensures
        q@ == (QueryView::LatestDeletions {
            pattern: influx_regex(seq![series_name_of(key_view(*key))]),
        }),
{
    let series = to_series_name(key);
    Query::LatestDeletions { pattern: crate::key_codec::text_to_influx_regex(series.as_str()) }
}

/// What a get returns for the answers to its two statements: the values of
/// the rows that came after the latest deletion of their series, unreadable
/// ones left out; or the failure of a statement, of the first before the
/// second.
pub open spec fn get_result(
    reply: Result<Seq<crate::point::SerieView>, Seq<char>>,
    deletions: Result<Seq<crate::point::SerieView>, Seq<char>>,
) -> Result<Seq<StoredDataView>, StorageErrorView> {
    match reply {
        Err(message) => Err(StorageErrorView::BackendUnavailable { message }),
        Ok(series) => match deletions {
            Err(message) => Err(StorageErrorView::BackendUnavailable { message }),
            Ok(tombstones) => Ok(decoded_series(series, tombstones, series.len())),
        },
    }
}

/// The view of what a get returns.
pub open spec fn data_result_view(r: Result<Vec<StoredData>, StorageError>) -> Result<
    Seq<StoredDataView>,
    StorageErrorView,
> {
    match r {
        Ok(data) => Ok(data_view(data@)),
        Err(e) => Err(e@),
    }
}

/// Ends a get: reads the rows that the database returned and leaves out
/// those that the latest tombstone of their series hides.
pub fn get_finish(reply: Result<Vec<Serie>, String>, deletions: Result<Vec<Serie>, String>) -> (r:
    Result<Vec<StoredData>, StorageError>)
    ensures
        data_result_view(r) == get_result(rows_reply_view(reply), rows_reply_view(deletions)),
{
    match reply {
        Err(message) => Err(StorageError::BackendUnavailable { message }),
        Ok(series) => match deletions {
            Err(message) => Err(StorageError::BackendUnavailable { message }),
            Ok(tombstones) => Ok(decode_series(&series, &tombstones)),
        },
    }
}

/// The statement that lists the entries: the latest point of every series.
pub fn get_all_entries_begin() -> (q: Query)
    ensures
        q@ == (QueryView::SelectLatest { pattern: influx_regex(seq![seq!['*', '*']]) }),
{
    Query::SelectLatest { pattern: influx_regex_all() }
}

/// What the list of entries is for an answer: every key with the timestamp
/// of its latest point, or the failure of the statement.
pub open spec fn entries_result(reply: Result<Seq<crate::point::SerieView>, Seq<char>>) -> Result<
    Seq<(Option<Seq<char>>, Timestamp)>,
    StorageErrorView,
> {
    match reply {
        Ok(series) => Ok(decoded_entries(series, series.len())),
        Err(message) => Err(StorageErrorView::BackendUnavailable { message }),
    }
}

/// The view of a list of entries, or of the failure to list them.
pub open spec fn entries_result_view(
    r: Result<Vec<(Option<KeyExpr>, Timestamp)>, StorageError>,
) -> Result<Seq<(Option<Seq<char>>, Timestamp)>, StorageErrorView> {
    match r {
        Ok(entries) => Ok(entries_view(entries@)),
        Err(e) => Err(e@),
    }
}

/// Ends the listing of the entries: reads the rows that the database
/// returned.
pub fn get_all_entries_finish(reply: Result<Vec<Serie>, String>) -> (r: Result<
    Vec<(Option<KeyExpr>, Timestamp)>,
    StorageError,
>)
    ensures
        entries_result_view(r) == entries_result(rows_reply_view(reply)),
{
    match reply {
        Ok(series) => Ok(decode_entries(&series)),
        Err(message) => Err(StorageError::BackendUnavailable { message }),
    }
}

} // verus!
