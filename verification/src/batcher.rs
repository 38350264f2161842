//! Batching of writes: points are collected and flushed together when the
//! batch is full or has waited long enough. The worker that owns the queue
//! hands every event to [`WriteBatcher::step`] and does what it answers.

use crate::point::{Point, PointView};
use vstd::prelude::*;

verus! {

/// How long the worker waits for one more point before it looks at the
/// batch again.
pub const BATCH_POLL_MS: u64 = 100;

/// How long a batch may wait when nothing else is configured.
pub const DEFAULT_BATCH_TIMEOUT_MS: u64 = 1000;

/// What happened at the queue.
pub enum BatchEvent {
    /// A point arrived.
    Item { point: Point },
    /// The wait for one more point ran out.
    TimedOut,
    /// The queue was closed.
    Closed,
}

/// The mathematical value of a [`BatchEvent`].
pub enum BatchEventView {
    Item { point: PointView },
    TimedOut,
    Closed,
}

impl View for BatchEvent {
    type V = BatchEventView;

    open spec fn view(&self) -> BatchEventView {
        match *self {
            BatchEvent::Item { point } => BatchEventView::Item { point: point@ },
            BatchEvent::TimedOut => BatchEventView::TimedOut,
            BatchEvent::Closed => BatchEventView::Closed,
        }
    }
}

/// What the worker does next.
pub enum BatchAction {
    /// Wait for the first point of a batch, however long it takes.
    WaitFirst,
    /// Wait for one more point, [`BATCH_POLL_MS`] at most.
    WaitMore,
    /// Write these points in one call, then wait for the first point of the
    /// next batch.
    Flush { points: Vec<Point> },
    /// End.
    Stop,
}

/// The mathematical value of a [`BatchAction`].
pub enum BatchActionView {
    WaitFirst,
    WaitMore,
    Flush { points: Seq<PointView> },
    Stop,
}

/// The views of some points.
pub open spec fn points_view(points: Seq<Point>) -> Seq<PointView> {
    Seq::new(points.len(), |i: int| points[i]@)
}

impl View for BatchAction {
    type V = BatchActionView;

    open spec fn view(&self) -> BatchActionView {
        match *self {
            BatchAction::WaitFirst => BatchActionView::WaitFirst,
            BatchAction::WaitMore => BatchActionView::WaitMore,
            BatchAction::Flush { points } => BatchActionView::Flush { points: points_view(points@) },
            BatchAction::Stop => BatchActionView::Stop,
        }
    }
}

/// The batch under way and the two thresholds.
pub struct WriteBatcher {
    batch: Vec<Point>,
    batch_size: usize,
    timeout_ms: u64,
    started_ms: u64,
    closed: bool,
}

/// The mathematical value of a [`WriteBatcher`].
pub struct BatcherView {
    /// The points collected so far, in the order of their arrival.
    pub batch: Seq<PointView>,
    /// The number of points at which the batch is flushed.
    pub batch_size: nat,
    /// The time after which the batch is flushed, in milliseconds.
    pub timeout_ms: u64,
    /// When the first point of the batch arrived.
    pub started_ms: u64,
    /// Whether the queue was closed.
    pub closed: bool,
}

impl View for WriteBatcher {
    type V = BatcherView;

    closed spec fn view(&self) -> BatcherView {
        BatcherView {
            batch: points_view(self.batch@),
            batch_size: self.batch_size as nat,
            timeout_ms: self.timeout_ms,
            started_ms: self.started_ms,
            closed: self.closed,
        }
    }
}

/// A batcher that has seen nothing yet.
pub open spec fn fresh(batch_size: nat, timeout_ms: u64) -> BatcherView {
    BatcherView { batch: Seq::empty(), batch_size, timeout_ms, started_ms: 0, closed: false }
}

/// The time from `start_ms` to `now_ms`; nothing where the clock ran
/// backwards.
pub open spec fn time_between(start_ms: u64, now_ms: u64) -> nat {
    if now_ms >= start_ms {
        (now_ms - start_ms) as nat
    } else {
        0
    }
}

/// How long the batch has waited at the moment `now_ms`.
pub open spec fn waited(b: BatcherView, now_ms: u64) -> nat {
    time_between(b.started_ms, now_ms)
}

/// Whether the batch is due: it is full, or it has waited longer than the
/// timeout.
pub open spec fn due(b: BatcherView, now_ms: u64) -> bool {
    b.batch.len() >= b.batch_size || waited(b, now_ms) > b.timeout_ms
}

/// A batch that is due is flushed whole and a new one begins; else the
/// worker waits for one more point.
pub open spec fn settle(b: BatcherView, now_ms: u64) -> (BatcherView, BatchActionView) {
    if due(b, now_ms) {
        (BatcherView { batch: Seq::empty(), ..b }, BatchActionView::Flush { points: b.batch })
    } else {
        (b, BatchActionView::WaitMore)
    }
}

/// What one event does. The first point of a batch starts its clock and is
/// never flushed at once. Every later point joins the batch, which is then
/// flushed if it is due, and so is a batch whose wait for one more point ran
/// out. When the queue is closed the worker stops and the batch under way
/// is given up.
pub open spec fn step_spec(b: BatcherView, event: BatchEventView, now_ms: u64) -> (
    BatcherView,
    BatchActionView,
) {
    if b.closed {
        (b, BatchActionView::Stop)
    } else {
        match event {
            BatchEventView::Closed => (
                BatcherView { batch: Seq::empty(), closed: true, ..b },
                BatchActionView::Stop,
            ),
            BatchEventView::Item { point } => if b.batch.len() == 0 {
                (
                    BatcherView { batch: seq![point], started_ms: now_ms, ..b },
                    BatchActionView::WaitMore,
                )
            } else {
                settle(BatcherView { batch: b.batch.push(point), ..b }, now_ms)
            },
            BatchEventView::TimedOut => if b.batch.len() == 0 {
                (b, BatchActionView::WaitFirst)
            } else {
                settle(b, now_ms)
            },
        }
    }
}

/// What a sequence of events does, each with the moment at which it
/// happened: the state in the end and the actions in order.
pub open spec fn run(b: BatcherView, events: Seq<(BatchEventView, u64)>) -> (
    BatcherView,
    Seq<BatchActionView>,
)
    decreases events.len(),
{
    if events.len() == 0 {
        (b, Seq::empty())
    } else {
        let before = run(b, events.drop_last());
        let last = step_spec(before.0, events.last().0, events.last().1);
        (last.0, before.1.push(last.1))
    }
}

impl WriteBatcher {
    /// A batcher for batches of `batch_size` points that wait `timeout_ms`
    /// at most.
    pub fn new(batch_size: usize, timeout_ms: u64) -> (b: WriteBatcher)
        ensures
            b@ == fresh(batch_size as nat, timeout_ms),
    {
        let b = WriteBatcher {
            batch: Vec::new(),
            batch_size,
            timeout_ms,
            started_ms: 0,
            closed: false,
        };
        assert(b@.batch =~= Seq::empty());
        b
    }

    /// The number of points in the batch under way.
    pub fn pending(&self) -> (n: usize)
        ensures
            n == self@.batch.len(),
    {
        self.batch.len()
    }

    /// Whether the queue was closed.
    pub fn is_closed(&self) -> (closed: bool)
        ensures
            closed == self@.closed,
    {
        self.closed
    }

    fn settle_batch(&mut self, now_ms: u64) -> (action: BatchAction)
        ensures
            (final(self)@, action@) == settle(old(self)@, now_ms),
    {
        let waited: u64 = if now_ms >= self.started_ms {
            now_ms - self.started_ms
        } else {
            0
        };
        if self.batch.len() >= self.batch_size || waited > self.timeout_ms {
            let mut points: Vec<Point> = Vec::new();
            std::mem::swap(&mut points, &mut self.batch);
            assert(self@.batch =~= Seq::empty());
            BatchAction::Flush { points }
        } else {
            BatchAction::WaitMore
        }
    }

    /// Takes one event that happened at the moment `now_ms` and says what
    /// the worker does next.
    pub fn step(&mut self, event: BatchEvent, now_ms: u64) -> (action: BatchAction)
        ensures
            (final(self)@, action@) == step_spec(old(self)@, event@, now_ms),
    {
        if self.closed {
            return BatchAction::Stop;
        }
        match event {
            BatchEvent::Closed => {
                self.batch = Vec::new();
                self.closed = true;
                assert(self@.batch =~= Seq::empty());
                BatchAction::Stop
            },
            BatchEvent::Item { point } => {
                let ghost pv = point@;
                let ghost before = self@.batch;
                if self.batch.len() == 0 {
                    self.batch.push(point);
                    self.started_ms = now_ms;
                    assert(self@.batch =~= seq![pv]);
                    BatchAction::WaitMore
                } else {
                    self.batch.push(point);
                    assert(self@.batch =~= before.push(pv));
                    self.settle_batch(now_ms)
                }
            },
            BatchEvent::TimedOut => {
                if self.batch.len() == 0 {
                    BatchAction::WaitFirst
                } else {
                    self.settle_batch(now_ms)
                }
            },
        }
    }
}

/// The points that arrive in a sequence of events, in the order of their
/// arrival.
pub open spec fn arrived(events: Seq<(BatchEventView, u64)>) -> Seq<PointView>
    decreases events.len(),
{
    if events.len() == 0 {
        Seq::empty()
    } else {
        match events.last().0 {
            BatchEventView::Item { point } => arrived(events.drop_last()).push(point),
            _ => arrived(events.drop_last()),
        }
    }
}

/// The events of a batch that is not overdue: the arrival of a first point
/// and then, in any order and number, arrivals of further points and waits
/// for one more point that ran out, none of them later than the timeout
/// after the first arrival. The queue is not closed.
pub open spec fn within_timeout(events: Seq<(BatchEventView, u64)>, timeout_ms: u64) -> bool {
    &&& events.len() > 0
    &&& events[0].0 is Item
    &&& forall|i: int|
        0 <= i < events.len() ==> !((#[trigger] events[i]).0 is Closed) && time_between(
            events[0].1,
            events[i].1,
        ) <= timeout_ms
}

/// While the batch is neither full nor overdue, the points that arrive are
/// all kept, in the order of their arrival, and nothing is flushed: neither
/// by an arrival nor by a wait for one more point that runs out.
pub proof fn lemma_batch_collects(
    batch_size: nat,
    timeout_ms: u64,
    events: Seq<(BatchEventView, u64)>,
)
    requires
        within_timeout(events, timeout_ms),
        arrived(events).len() < batch_size,
    ensures
        arrived(events).len() > 0,
        run(fresh(batch_size, timeout_ms), events).0 == (BatcherView {
            batch: arrived(events),
            started_ms: events[0].1,
            ..fresh(batch_size, timeout_ms)
        }),
        run(fresh(batch_size, timeout_ms), events).1 == Seq::new(
            events.len(),
            |i: int| BatchActionView::WaitMore,
        ),
    decreases events.len(),
{
    let start = fresh(batch_size, timeout_ms);
    let n = events.len() as int;
    let calm = Seq::new(events.len(), |i: int| BatchActionView::WaitMore);
    assert(events[n - 1] == events.last());
    if n == 1 {
        assert(events.drop_last() =~= Seq::empty());
        assert(run(start, events.drop_last()) == (start, Seq::<BatchActionView>::empty()));
        assert(arrived(events.drop_last()) =~= Seq::<PointView>::empty());
        assert(events.last() == events[0]);
        assert(run(start, events).0.batch =~= arrived(events));
        assert(run(start, events).1 =~= calm);
    } else {
        let prefix = events.drop_last();
        assert(prefix[0] == events[0]);
        assert forall|i: int| 0 <= i < prefix.len() implies !((#[trigger] prefix[i]).0 is Closed)
            && time_between(prefix[0].1, prefix[i].1) <= timeout_ms by {
            assert(prefix[i] == events[i]);
        }
        lemma_batch_collects(batch_size, timeout_ms, prefix);
        let before = run(start, prefix);
        assert(time_between(events[0].1, events[n - 1].1) <= timeout_ms);
        match events.last().0 {
            BatchEventView::Item { point } => {
                let joined = BatcherView { batch: before.0.batch.push(point), ..before.0 };
                assert(!due(joined, events.last().1));
            },
            BatchEventView::TimedOut => {
                assert(!due(before.0, events.last().1));
            },
            BatchEventView::Closed => {},
        }
        assert(run(start, events).1 =~= calm);
    }
}

/// Fewer points than a full batch, and then nothing more: however many
/// waits for one more point run out before the timeout, nothing is flushed
/// until one runs out after it. Then exactly one batch is flushed, and it
/// holds all the points in the order in which they arrived.
pub proof fn lemma_timeout_flushes_once(
    batch_size: nat,
    timeout_ms: u64,
    events: Seq<(BatchEventView, u64)>,
    end_ms: u64,
)
    requires
        within_timeout(events, timeout_ms),
        arrived(events).len() < batch_size,
        time_between(events[0].1, end_ms) > timeout_ms,
    ensures
        run(
            fresh(batch_size, timeout_ms),
            events.push((BatchEventView::TimedOut, end_ms)),
        ).1 == Seq::new(events.len(), |i: int| BatchActionView::WaitMore).push(
            BatchActionView::Flush { points: arrived(events) },
        ),
        run(
            fresh(batch_size, timeout_ms),
            events.push((BatchEventView::TimedOut, end_ms)),
        ).0.batch == Seq::<PointView>::empty(),
{
    let start = fresh(batch_size, timeout_ms);
    let all = events.push((BatchEventView::TimedOut, end_ms));
    lemma_batch_collects(batch_size, timeout_ms, events);
    assert(all.drop_last() =~= events);
    let before = run(start, all.drop_last());
    assert(due(before.0, end_ms));
}

/// A batch that becomes full is flushed with the point that fills it, in
/// the order of arrival.
pub proof fn lemma_full_batch_is_flushed(b: BatcherView, point: PointView, now_ms: u64)
    requires
        !b.closed,
        b.batch.len() > 0,
        b.batch.len() + 1 >= b.batch_size,
    ensures
        step_spec(b, BatchEventView::Item { point }, now_ms).1 == (BatchActionView::Flush {
            points: b.batch.push(point),
        }),
        step_spec(b, BatchEventView::Item { point }, now_ms).0.batch == Seq::<PointView>::empty(),
{
}

} // verus!
