//! A series as the database holds it, and what the statements of put,
//! delete and the delayed check do to it. The laws of the storage are stated
//! and proved over this model.

use crate::engine::{
    delete_decision, deletion_of, put_decision, removes_series, stale, DeleteStepView, Probe,
    PutStepView, StorageInsertionResult,
};
use crate::point::{Cut, Kind, PointView};
use crate::query::QueryView;
use crate::timestamp::{
    earlier, lemma_nanos_before_is_earlier, lemma_nanos_fit, not_later, ntp_nanos,
    timestamp_text, timestamp_of_text, Timestamp,
};
use crate::value::EncodingView;
use vstd::prelude::*;

verus! {

/// A point of a series: the time at which the database files it, its kind
/// and its timestamp.
pub struct Stored {
    pub nanos: nat,
    pub kind: Kind,
    pub timestamp: Timestamp,
}

/// The point that records a put at `timestamp`.
pub open spec fn put_record(timestamp: Timestamp) -> Stored {
    Stored { nanos: ntp_nanos(timestamp.time), kind: Kind::Put, timestamp }
}

/// The tombstone that records a delete at `timestamp`.
pub open spec fn del_record(timestamp: Timestamp) -> Stored {
    Stored { nanos: ntp_nanos(timestamp.time), kind: Kind::Del, timestamp }
}

/// Every point of the series is filed at the time of its timestamp.
pub open spec fn consistent(s: Set<Stored>) -> bool {
    forall|p: Stored| #[trigger] s.contains(p) ==> p.nanos == ntp_nanos(p.timestamp.time)
}

/// The series after a point was written: the database keeps one point for
/// each time and kind, the one written last.
pub open spec fn written(s: Set<Stored>, p: Stored) -> Set<Stored> {
    Set::new(|q: Stored| q == p || (s.contains(q) && !(q.nanos == p.nanos && q.kind == p.kind)))
}

/// The series after the points filed before `time` were removed.
pub open spec fn purged(s: Set<Stored>, time: nat) -> Set<Stored> {
    Set::new(|q: Stored| s.contains(q) && q.nanos >= time)
}

/// What the first statement of a get selects from: the points that are no
/// tombstones.
pub open spec fn visible(s: Set<Stored>) -> Set<Stored> {
    Set::new(|q: Stored| s.contains(q) && q.kind == Kind::Put)
}

/// Whether `d` is a tombstone of the series that no other is filed after.
pub open spec fn latest_tombstone(s: Set<Stored>, d: Stored) -> bool {
    &&& s.contains(d)
    &&& d.kind == Kind::Del
    &&& forall|p: Stored| #[trigger] s.contains(p) && p.kind == Kind::Del ==> p.nanos <= d.nanos
}

/// Whether `answer` is what the database says when it is asked for the
/// latest tombstone of the series: nothing where there is none, else the
/// timestamp of a tombstone that none is filed after.
pub open spec fn answers_latest_deletion(s: Set<Stored>, answer: Option<Timestamp>) -> bool {
    match answer {
        None => forall|p: Stored| #[trigger] s.contains(p) ==> p.kind != Kind::Del,
        Some(t) => exists|d: Stored| #[trigger] latest_tombstone(s, d) && d.timestamp == t,
    }
}

/// Whether `probe` is what the database can say when it is asked for a
/// point of the series that is no tombstone.
pub open spec fn answers_probe(s: Set<Stored>, probe: Probe) -> bool {
    match probe {
        Probe::Live => exists|p: Stored| #[trigger] s.contains(p) && p.kind == Kind::Put,
        Probe::Empty => forall|p: Stored| #[trigger] s.contains(p) ==> p.kind != Kind::Put,
        _ => true,
    }
}

/// What a put at `timestamp` reports and leaves behind, given the answer
/// about the latest tombstone: too late, it writes nothing.
pub open spec fn after_put(s: Set<Stored>, timestamp: Timestamp, answer: Option<Timestamp>) -> (
    StorageInsertionResult,
    Set<Stored>,
) {
    if stale(answer, timestamp) {
        (StorageInsertionResult::Outdated, s)
    } else {
        (StorageInsertionResult::Inserted, written(s, put_record(timestamp)))
    }
}

/// What a delete at `timestamp` leaves behind: the points filed before it
/// are removed, then its tombstone is written.
pub open spec fn after_delete(s: Set<Stored>, timestamp: Timestamp) -> Set<Stored> {
    written(purged(s, ntp_nanos(timestamp.time)), del_record(timestamp))
}

/// What the delayed check leaves behind: nothing where it removes the
/// series, else the series as it was.
pub open spec fn after_check(s: Set<Stored>, probe: Probe) -> Set<Stored> {
    if removes_series(probe) {
        Set::empty()
    } else {
        s
    }
}

/// What a statement does to the series that it names.
pub open spec fn after_query(s: Set<Stored>, q: QueryView) -> Set<Stored> {
    match q {
        QueryView::DeleteBefore { series: _, time } => purged(s, time as nat),
        QueryView::DropMeasurement { series: _ } => Set::empty(),
        _ => s,
    }
}

/// What the write of a point does to its series: the point is filed at its
/// time, with its kind and the timestamp that its field reads as.
pub open spec fn after_write(s: Set<Stored>, p: PointView) -> Set<Stored> {
    match timestamp_of_text(p.timestamp) {
        Some(timestamp) => written(s, Stored { nanos: p.time as nat, kind: p.kind, timestamp }),
        None => s,
    }
}

/// The statements of a delete do to a series what [`after_delete`] says:
/// the removal that the delete begins with, then the tombstone that it
/// writes. This holds of every timestamp whose text reads back as itself, as
/// the text of every timestamp does.
pub proof fn lemma_delete_follows_model(s: Set<Stored>, series: Seq<char>, timestamp: Timestamp)
    requires
        timestamp_of_text(timestamp_text(timestamp)) == Some(timestamp),
    ensures
        delete_decision(series, timestamp, Ok(())) matches DeleteStepView::Write { point }
            && after_write(
            after_query(
                s,
                QueryView::DeleteBefore { series, time: ntp_nanos(timestamp.time) as u64 },
            ),
            point,
        ) == after_delete(s, timestamp),
{
    lemma_nanos_fit(timestamp.time);
}

/// What a put decides does to a series what [`after_put`] says: where it
/// finishes at once it reports that the value is outdated and the series
/// stays as it is, and where it writes, the write leaves the series with the
/// point of the put. This holds of every timestamp whose text reads back as
/// itself, as the text of every timestamp does.
pub proof fn lemma_put_follows_model(
    s: Set<Stored>,
    series: Seq<char>,
    payload: Seq<u8>,
    encoding: EncodingView,
    timestamp: Timestamp,
    reply: Result<Option<Seq<char>>, Seq<char>>,
)
    requires
        timestamp_of_text(timestamp_text(timestamp)) == Some(timestamp),
        deletion_of(reply) is Ok,
    ensures
        match put_decision(series, payload, encoding, timestamp, reply) {
            PutStepView::Write { point } => after_put(s, timestamp, deletion_of(reply)->Ok_0) == (
                StorageInsertionResult::Inserted,
                after_write(s, point),
            ),
            PutStepView::Finish { result } => result == Ok::<
                StorageInsertionResult,
                crate::engine::StorageErrorView,
            >(StorageInsertionResult::Outdated) && after_put(
                s,
                timestamp,
                deletion_of(reply)->Ok_0,
            ) == (StorageInsertionResult::Outdated, s),
        },
{
    lemma_nanos_fit(timestamp.time);
}

/// The statement with which the delayed check ends removes the series, and
/// the check sends it only where [`after_check`] leaves nothing.
pub proof fn lemma_check_follows_model(s: Set<Stored>, series: Seq<char>, probe: Probe)
    ensures
        removes_series(probe) ==> after_check(s, probe) == after_query(
            s,
            QueryView::DropMeasurement { series },
        ),
        !removes_series(probe) ==> after_check(s, probe) == s,
{
}

/// Writing and removing keep every point at the time of its timestamp.
pub proof fn lemma_consistency_kept(
    s: Set<Stored>,
    timestamp: Timestamp,
    answer: Option<Timestamp>,
    probe: Probe,
)
    requires
        consistent(s),
    ensures
        consistent(after_put(s, timestamp, answer).1),
        consistent(after_delete(s, timestamp)),
        consistent(after_check(s, probe)),
{
}

/// The series holds at most one point for each time and kind.
pub open spec fn one_per_time_and_kind(s: Set<Stored>) -> bool {
    forall|p: Stored, q: Stored|
        #![trigger s.contains(p), s.contains(q)]
        s.contains(p) && s.contains(q) && p.nanos == q.nanos && p.kind == q.kind ==> p == q
}

/// Writing and removing keep the series at one point for each time and
/// kind, and the empty series is such a series.
pub proof fn lemma_one_per_time_and_kind_kept(
    s: Set<Stored>,
    timestamp: Timestamp,
    answer: Option<Timestamp>,
    probe: Probe,
)
    requires
        one_per_time_and_kind(s),
    ensures
        one_per_time_and_kind(after_put(s, timestamp, answer).1),
        one_per_time_and_kind(after_delete(s, timestamp)),
        one_per_time_and_kind(after_check(s, probe)),
        one_per_time_and_kind(Set::<Stored>::empty()),
{
    let s1 = after_put(s, timestamp, answer).1;
    assert forall|p: Stored, q: Stored|
        s1.contains(p) && s1.contains(q) && p.nanos == q.nanos && p.kind == q.kind implies p
        == q by {
        if stale(answer, timestamp) {
            assert(s.contains(p) && s.contains(q));
        } else if p != put_record(timestamp) && q != put_record(timestamp) {
            assert(s.contains(p) && s.contains(q));
        }
    }
    let s2 = after_delete(s, timestamp);
    assert forall|p: Stored, q: Stored|
        s2.contains(p) && s2.contains(q) && p.nanos == q.nanos && p.kind == q.kind implies p
        == q by {
        if p != del_record(timestamp) && q != del_record(timestamp) {
            assert(s.contains(p) && s.contains(q));
        }
    }
}

/// What a get returns at most: the points that are no tombstones and that
/// came after the latest deletion, by their timestamps. A get with a range
/// returns those of them that the range lets through.
pub open spec fn returned(s: Set<Stored>, answer: Option<Timestamp>) -> Set<Stored> {
    Set::new(|q: Stored| s.contains(q) && q.kind == Kind::Put && !stale(answer, q.timestamp))
}

/// A get shows a row exactly where the model returns its point: the cut
/// that a get reads from the latest tombstone shows what is not stale
/// against that tombstone, and a tombstone that cannot be read shows
/// nothing.
pub proof fn lemma_get_follows_model(s: Set<Stored>, deletion: Timestamp, p: Stored)
    ensures
        returned(s, None).contains(p) <==> visible(s).contains(p) && Cut::Open.shows(p.timestamp),
        returned(s, Some(deletion)).contains(p) <==> visible(s).contains(p) && (Cut::After {
            deletion,
        }).shows(p.timestamp),
        !Cut::Unknown.shows(p.timestamp),
{
}

/// Where the series records a delete, and no other tombstone at its
/// nanosecond, the database's answer about the latest tombstone is a
/// timestamp that is not earlier than the delete.
pub proof fn lemma_latest_deletion_is_not_earlier(
    s: Set<Stored>,
    deletion: Timestamp,
    answer: Option<Timestamp>,
)
    requires
        consistent(s),
        s.contains(del_record(deletion)),
        forall|p: Stored| #[trigger]
            s.contains(p) && p.kind == Kind::Del && p.nanos == ntp_nanos(deletion.time) ==> p
                == del_record(deletion),
        answers_latest_deletion(s, answer),
    ensures
        answer matches Some(t) && not_later(deletion, t),
{
    let tomb = del_record(deletion);
    match answer {
        None => {
            assert(s.contains(tomb) && tomb.kind == Kind::Del);
        },
        Some(t) => {
            let d = choose|d: Stored| #[trigger] latest_tombstone(s, d) && d.timestamp == t;
            assert(s.contains(tomb) && tomb.kind == Kind::Del);
            assert(tomb.nanos <= d.nanos);
            if d.nanos == tomb.nanos {
                assert(d == tomb);
            } else {
                assert(d.nanos == ntp_nanos(d.timestamp.time));
                lemma_nanos_before_is_earlier(deletion, t);
            }
        },
    }
}

/// Two series that hold the same tombstones, at most one at each
/// nanosecond, get the same answer about the latest of them.
pub proof fn lemma_latest_deletion_is_one(
    s1: Set<Stored>,
    s2: Set<Stored>,
    answer1: Option<Timestamp>,
    answer2: Option<Timestamp>,
)
    requires
        one_per_time_and_kind(s2),
        forall|p: Stored| p.kind == Kind::Del ==> (s1.contains(p) <==> s2.contains(p)),
        answers_latest_deletion(s1, answer1),
        answers_latest_deletion(s2, answer2),
    ensures
        answer1 == answer2,
{
    match (answer1, answer2) {
        (Some(t1), Some(t2)) => {
            let d1 = choose|d: Stored| #[trigger] latest_tombstone(s1, d) && d.timestamp == t1;
            let d2 = choose|d: Stored| #[trigger] latest_tombstone(s2, d) && d.timestamp == t2;
            assert(s2.contains(d1) && s1.contains(d2));
            assert(d1.nanos <= d2.nanos && d2.nanos <= d1.nanos);
            assert(s2.contains(d1) && s2.contains(d2));
            assert(d1 == d2);
        },
        (Some(t1), None) => {
            let d1 = choose|d: Stored| #[trigger] latest_tombstone(s1, d) && d.timestamp == t1;
            assert(s2.contains(d1));
        },
        (None, Some(t2)) => {
            let d2 = choose|d: Stored| #[trigger] latest_tombstone(s2, d) && d.timestamp == t2;
            assert(s1.contains(d2));
        },
        (None, None) => {},
    }
}

/// A put that is not later than a delete that the series records is
/// reported as outdated and changes nothing, whatever happened since the
/// delete.
pub proof fn lemma_put_older_than_recorded_delete(
    s: Set<Stored>,
    put: Timestamp,
    deletion: Timestamp,
    answer: Option<Timestamp>,
)
    requires
        consistent(s),
        one_per_time_and_kind(s),
        s.contains(del_record(deletion)),
        not_later(put, deletion),
        answers_latest_deletion(s, answer),
    ensures
        after_put(s, put, answer) == (StorageInsertionResult::Outdated, s),
        visible(after_put(s, put, answer).1) == visible(s),
{
    lemma_latest_deletion_is_not_earlier(s, deletion, answer);
}

/// After a delete, a put that is not later than the delete is reported as
/// outdated and changes nothing: neither the series nor what a get returns.
pub proof fn lemma_put_after_delete_is_outdated(
    s: Set<Stored>,
    put: Timestamp,
    deletion: Timestamp,
    answer: Option<Timestamp>,
)
    requires
        consistent(s),
        not_later(put, deletion),
        answers_latest_deletion(after_delete(s, deletion), answer),
    ensures
        after_put(after_delete(s, deletion), put, answer) == (
            StorageInsertionResult::Outdated,
            after_delete(s, deletion),
        ),
        forall|any: Option<Timestamp>|
            returned(after_put(after_delete(s, deletion), put, answer).1, any) == returned(
                after_delete(s, deletion),
                any,
            ),
{
    lemma_latest_deletion_is_not_earlier(after_delete(s, deletion), deletion, answer);
}

/// A put and then a later delete: whatever the put did, every value that a
/// get returns afterwards came after the delete, so the value of the put is
/// not among them. The timestamps decide, also where the database files the
/// put and the delete at the same nanosecond.
pub proof fn lemma_delete_hides_earlier_put(
    s: Set<Stored>,
    put: Timestamp,
    deletion: Timestamp,
    answer_put: Option<Timestamp>,
    answer_get: Option<Timestamp>,
)
    requires
        consistent(s),
        earlier(put, deletion),
        answers_latest_deletion(
            after_delete(after_put(s, put, answer_put).1, deletion),
            answer_get,
        ),
    ensures
        forall|p: Stored| #[trigger]
            returned(after_delete(after_put(s, put, answer_put).1, deletion), answer_get).contains(
                p,
            ) ==> earlier(deletion, p.timestamp),
        !returned(after_delete(after_put(s, put, answer_put).1, deletion), answer_get).contains(
            put_record(put),
        ),
{
    let state = after_delete(after_put(s, put, answer_put).1, deletion);
    lemma_latest_deletion_is_not_earlier(state, deletion, answer_get);
}

/// A delete and then an earlier put: the put is outdated and writes
/// nothing, and every value that a get returns afterwards came after the
/// delete.
pub proof fn lemma_delete_hides_late_put(
    s: Set<Stored>,
    put: Timestamp,
    deletion: Timestamp,
    answer_put: Option<Timestamp>,
    answer_get: Option<Timestamp>,
)
    requires
        consistent(s),
        earlier(put, deletion),
        answers_latest_deletion(after_delete(s, deletion), answer_put),
        answers_latest_deletion(
            after_put(after_delete(s, deletion), put, answer_put).1,
            answer_get,
        ),
    ensures
        after_put(after_delete(s, deletion), put, answer_put) == (
            StorageInsertionResult::Outdated,
            after_delete(s, deletion),
        ),
        forall|p: Stored| #[trigger]
            returned(after_put(after_delete(s, deletion), put, answer_put).1, answer_get).contains(
                p,
            ) ==> earlier(deletion, p.timestamp),
        !returned(after_put(after_delete(s, deletion), put, answer_put).1, answer_get).contains(
            put_record(put),
        ),
{
    lemma_put_after_delete_is_outdated(s, put, deletion, answer_put);
    lemma_latest_deletion_is_not_earlier(after_delete(s, deletion), deletion, answer_get);
}

/// A put and a later delete give the same whichever arrives first: a get
/// returns the same values after both, none of them from before the
/// delete. This holds of a series that holds no value at the nanosecond of
/// the put, where the database would keep only the one written last; the
/// empty series is such a series.
pub proof fn lemma_order_of_arrival_is_irrelevant(
    s: Set<Stored>,
    put: Timestamp,
    deletion: Timestamp,
    answer_put_first: Option<Timestamp>,
    answer_get_put_first: Option<Timestamp>,
    answer_put_last: Option<Timestamp>,
    answer_get_put_last: Option<Timestamp>,
)
    requires
        consistent(s),
        one_per_time_and_kind(s),
        earlier(put, deletion),
        forall|p: Stored| #[trigger]
            s.contains(p) && p.kind == Kind::Put ==> p.nanos != ntp_nanos(put.time),
        answers_latest_deletion(
            after_delete(after_put(s, put, answer_put_first).1, deletion),
            answer_get_put_first,
        ),
        answers_latest_deletion(after_delete(s, deletion), answer_put_last),
        answers_latest_deletion(
            after_put(after_delete(s, deletion), put, answer_put_last).1,
            answer_get_put_last,
        ),
    ensures
        returned(
            after_delete(after_put(s, put, answer_put_first).1, deletion),
            answer_get_put_first,
        ) == returned(
            after_put(after_delete(s, deletion), put, answer_put_last).1,
            answer_get_put_last,
        ),
        forall|p: Stored| #[trigger]
            returned(
                after_delete(after_put(s, put, answer_put_first).1, deletion),
                answer_get_put_first,
            ).contains(p) ==> earlier(deletion, p.timestamp),
{
    let first = after_delete(after_put(s, put, answer_put_first).1, deletion);
    let last = after_put(after_delete(s, deletion), put, answer_put_last).1;
    lemma_delete_hides_earlier_put(s, put, deletion, answer_put_first, answer_get_put_first);
    lemma_delete_hides_late_put(s, put, deletion, answer_put_last, answer_get_put_last);
    assert(last == after_delete(s, deletion));
    lemma_latest_deletion_is_not_earlier(first, deletion, answer_get_put_first);
    lemma_latest_deletion_is_not_earlier(last, deletion, answer_get_put_last);
    lemma_one_per_time_and_kind_kept(s, deletion, None, Probe::Live);
    assert forall|p: Stored| p.kind == Kind::Del implies (first.contains(p) <==> last.contains(
        p,
    )) by {}
    lemma_latest_deletion_is_one(first, last, answer_get_put_first, answer_get_put_last);
    // the series differ at most by the point of the put, which no get returns
    assert forall|p: Stored|
        returned(first, answer_get_put_first).contains(p) <==> returned(
            last,
            answer_get_put_last,
        ).contains(p) by {
        if p.kind == Kind::Put && p != put_record(put) {
            assert(first.contains(p) <==> last.contains(p));
        }
    }
    assert(returned(first, answer_get_put_first) =~= returned(last, answer_get_put_last));
}

/// On a series that was empty, a put and a later delete leave nothing for a
/// get to return, whichever of the two arrives first.
pub proof fn lemma_put_and_delete_on_empty_series(
    put: Timestamp,
    deletion: Timestamp,
    answer_put_first: Option<Timestamp>,
    answer_get_put_first: Option<Timestamp>,
    answer_put_last: Option<Timestamp>,
    answer_get_put_last: Option<Timestamp>,
)
    requires
        earlier(put, deletion),
        answers_latest_deletion(
            after_delete(after_put(Set::empty(), put, answer_put_first).1, deletion),
            answer_get_put_first,
        ),
        answers_latest_deletion(after_delete(Set::empty(), deletion), answer_put_last),
        answers_latest_deletion(
            after_put(after_delete(Set::empty(), deletion), put, answer_put_last).1,
            answer_get_put_last,
        ),
    ensures
        returned(
            after_delete(after_put(Set::empty(), put, answer_put_first).1, deletion),
            answer_get_put_first,
        ) == Set::<Stored>::empty(),
        returned(
            after_put(after_delete(Set::empty(), deletion), put, answer_put_last).1,
            answer_get_put_last,
        ) == Set::<Stored>::empty(),
{
    let s = Set::<Stored>::empty();
    let first = after_delete(after_put(s, put, answer_put_first).1, deletion);
    let last = after_put(after_delete(s, deletion), put, answer_put_last).1;
    lemma_delete_hides_earlier_put(s, put, deletion, answer_put_first, answer_get_put_first);
    lemma_delete_hides_late_put(s, put, deletion, answer_put_last, answer_get_put_last);
    assert forall|p: Stored| !returned(first, answer_get_put_first).contains(p) by {
        if first.contains(p) && p.kind == Kind::Put {
            assert(p == put_record(put));
        }
    }
    assert(returned(first, answer_get_put_first) =~= Set::<Stored>::empty());
    assert(returned(last, answer_get_put_last) =~= Set::<Stored>::empty());
}

/// The delayed check after a delete. Where every put of the series was
/// filed before the delete and none arrived since, the series holds nothing
/// but tombstones and the check, told so, removes it. Where a later put was
/// written in between, the database cannot say that the series is empty,
/// and the check leaves the series as it is.
pub proof fn lemma_check_after_delete(
    s: Set<Stored>,
    deletion: Timestamp,
    put: Timestamp,
    answer: Option<Timestamp>,
    probe: Probe,
)
    requires
        forall|p: Stored| #[trigger] s.contains(p) && p.kind == Kind::Put ==> p.nanos < ntp_nanos(
            deletion.time,
        ),
    ensures
        answers_probe(after_delete(s, deletion), Probe::Empty),
        !answers_probe(after_delete(s, deletion), Probe::Live),
        after_check(after_delete(s, deletion), Probe::Empty) == Set::<Stored>::empty(),
        after_put(after_delete(s, deletion), put, answer).0 == StorageInsertionResult::Inserted
            && answers_probe(after_put(after_delete(s, deletion), put, answer).1, probe)
            ==> after_check(after_put(after_delete(s, deletion), put, answer).1, probe)
            == after_put(after_delete(s, deletion), put, answer).1,
{
    let s1 = after_delete(s, deletion);
    if after_put(s1, put, answer).0 == StorageInsertionResult::Inserted {
        let s2 = after_put(s1, put, answer).1;
        assert(s2.contains(put_record(put)));
    }
}

/// The delayed check never removes a series that holds a point that is no
/// tombstone, and leaves such a series as it is.
pub proof fn lemma_check_keeps_live_series(s: Set<Stored>, probe: Probe)
    requires
        answers_probe(s, probe),
        exists|p: Stored| #[trigger] s.contains(p) && p.kind == Kind::Put,
    ensures
        after_check(s, probe) == s,
{
}

} // verus!
