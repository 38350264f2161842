//! The time range of a query: read from the text of the query's parameters
//! and written as the filter of the database, which always leaves
//! tombstones out and, without a readable range, asks for the latest point
//! alone.

use crate::text::{chars_of, contains_part, has_part, push_text};
use std::str::FromStr;
use std::time::UNIX_EPOCH;
use vstd::prelude::*;
use zenoh::query::{TimeBound as ZTimeBound, TimeExpr as ZTimeExpr, TimeRange as ZTimeRange};

verus! {

/// Seconds from the epoch to the last second of the year 9999, the latest
/// instant that can be written.
pub const MAX_FIXED_SECS: u64 = 253_402_300_799;

/// One end of a range: an instant, or a distance from the moment at which
/// the database evaluates the query.
pub enum TimeExpr {
    /// An instant, in seconds and nanoseconds since the epoch.
    Fixed { secs: u64, nanos: u32 },
    /// An offset from now: the number of seconds as it is written, with a
    /// minus sign in front where it is negative and with no sign otherwise.
    Now { offset: String },
}

/// How a range is limited on one side.
pub enum TimeBound {
    Inclusive(TimeExpr),
    Exclusive(TimeExpr),
    Unbounded,
}

/// A range of time.
pub struct TimeRange {
    pub start: TimeBound,
    pub end: TimeBound,
}

/// The mathematical value of a [`TimeExpr`].
pub enum TimeExprView {
    Fixed { secs: u64, nanos: u32 },
    Now { offset: Seq<char> },
}

/// The mathematical value of a [`TimeBound`].
pub enum TimeBoundView {
    Inclusive(TimeExprView),
    Exclusive(TimeExprView),
    Unbounded,
}

/// The mathematical value of a [`TimeRange`].
pub struct TimeRangeView {
    pub start: TimeBoundView,
    pub end: TimeBoundView,
}

impl View for TimeExpr {
    type V = TimeExprView;

    open spec fn view(&self) -> TimeExprView {
        match *self {
            TimeExpr::Fixed { secs, nanos } => TimeExprView::Fixed { secs, nanos },
            TimeExpr::Now { offset } => TimeExprView::Now { offset: offset@ },
        }
    }
}

impl View for TimeBound {
    type V = TimeBoundView;

    open spec fn view(&self) -> TimeBoundView {
        match *self {
            TimeBound::Inclusive(t) => TimeBoundView::Inclusive(t@),
            TimeBound::Exclusive(t) => TimeBoundView::Exclusive(t@),
            TimeBound::Unbounded => TimeBoundView::Unbounded,
        }
    }
}

impl View for TimeRange {
    type V = TimeRangeView;

    open spec fn view(&self) -> TimeRangeView {
        TimeRangeView { start: self.start@, end: self.end@ }
    }
}

impl TimeExprView {
    /// An instant can be written when it lies before the year 10000.
    pub open spec fn wf(self) -> bool {
        match self {
            TimeExprView::Fixed { secs, nanos } => secs <= MAX_FIXED_SECS && nanos < 1_000_000_000,
            TimeExprView::Now { offset } => offset.len() > 0 && offset[0] != '+',
        }
    }
}

impl TimeBoundView {
    pub open spec fn wf(self) -> bool {
        match self {
            TimeBoundView::Inclusive(t) => t.wf(),
            TimeBoundView::Exclusive(t) => t.wf(),
            TimeBoundView::Unbounded => true,
        }
    }
}

impl TimeRangeView {
    pub open spec fn wf(self) -> bool {
        self.start.wf() && self.end.wf()
    }
}

/// The view of an optional range.
pub open spec fn range_view(range: Option<TimeRange>) -> Option<TimeRangeView> {
    match range {
        Some(r) => Some(r@),
        None => None,
    }
}

/// What `zenoh::query::TimeRange::from_str` makes of a text, an instant
/// given by its distance from the epoch and an offset by the text that
/// shows the number of seconds; `None` where it refuses the text.
pub uninterp spec fn time_range_of_text(text: Seq<char>) -> Option<TimeRangeView>;

/// How `humantime::format_rfc3339` writes the instant that lies `secs`
/// seconds and `nanos` nanoseconds after the epoch.
pub uninterp spec fn rfc3339_text(secs: u64, nanos: u32) -> Seq<char>;

/// The texts that are handed to the parser of ranges. The form that gives a
/// start and a duration after `;` is not accepted, and neither is a duration
/// that consists of the unit `s` alone.
pub open spec fn parses_safely(text: Seq<char>) -> bool {
    &&& has_part(text, ".."@) || !has_part(text, ";"@)
    &&& !has_part(text, "(s)"@)
    &&& !has_part(text, "(-s)"@)
}

/// Calls `zenoh::query::TimeRange::from_str` and copies what it found: for
/// an instant its distance from the epoch, for an offset the number of
/// seconds as its `Display` shows it, which is never empty and never begins
/// with a plus sign. The instants come from
/// `humantime::parse_rfc3339_weak`, which accepts the years 1970 to 9999
/// only. The texts left out are those on which the parser may stop the
/// program.
#[verifier::external_body]
fn parse_time_range(p: &str) -> (r: Option<TimeRange>)
    requires
        parses_safely(p@),
    ensures
        range_view(r) == time_range_of_text(p@),
        r matches Some(range) ==> range@.wf(),
{
    let expr = |t: ZTimeExpr| match t {
        ZTimeExpr::Fixed(t) => {
            let d = t.duration_since(UNIX_EPOCH).unwrap_or_default();
            TimeExpr::Fixed { secs: d.as_secs(), nanos: d.subsec_nanos() }
        },
        ZTimeExpr::Now { offset_secs } => TimeExpr::Now { offset: format!("{offset_secs}") },
    };
    let bound = |b: ZTimeBound<ZTimeExpr>| match b {
        ZTimeBound::Inclusive(t) => TimeBound::Inclusive(expr(t)),
        ZTimeBound::Exclusive(t) => TimeBound::Exclusive(expr(t)),
        ZTimeBound::Unbounded => TimeBound::Unbounded,
    };
    let r = ZTimeRange::from_str(p).ok()?;
    Some(TimeRange { start: bound(r.start), end: bound(r.end) })
}

/// Calls `humantime::format_rfc3339` on the instant that lies `secs` seconds
/// and `nanos` nanoseconds after the epoch and takes what it displays. It
/// cannot display an instant after the year 9999.
#[verifier::external_body]
fn format_instant(secs: u64, nanos: u32) -> (text: String)
    requires
        secs <= MAX_FIXED_SECS,
        nanos < 1_000_000_000,
    ensures
        text@ == rfc3339_text(secs, nanos),
{
    humantime::format_rfc3339(UNIX_EPOCH + std::time::Duration::new(secs, nanos)).to_string()
}

/// A number of seconds with its sign: as it stands where it is negative,
/// behind a plus sign otherwise.
pub open spec fn signed(offset: Seq<char>) -> Seq<char> {
    if offset.len() > 0 && offset[0] == '-' {
        offset
    } else {
        seq!['+'] + offset
    }
}

/// How one end of a range is written in a filter: an instant between
/// quotes, an offset as `now()`, the sign, the number of seconds and `s`.
pub open spec fn expr_text(t: TimeExprView) -> Seq<char> {
    match t {
        TimeExprView::Fixed { secs, nanos } => "'"@ + rfc3339_text(secs, nanos) + "'"@,
        TimeExprView::Now { offset } => "now()"@ + signed(offset) + "s"@,
    }
}

/// An offset is always written with its sign: after `now()` stands a minus
/// where the number of seconds is negative and a plus otherwise, then the
/// number without its sign, then `s`.
pub proof fn lemma_offset_is_signed(offset: Seq<char>)
    requires
        (TimeExprView::Now { offset }).wf(),
    ensures
        signed(offset)[0] == '+' || signed(offset)[0] == '-',
        signed(offset)[0] == '-' <==> offset[0] == '-',
        signed(offset).subrange(1, signed(offset).len() as int) == if offset[0] == '-' {
            offset.subrange(1, offset.len() as int)
        } else {
            offset
        },
        expr_text(TimeExprView::Now { offset }) == "now()"@ + signed(offset) + "s"@,
{
    if offset[0] != '-' {
        assert(signed(offset).subrange(1, signed(offset).len() as int) =~= offset);
    }
}

/// The comparison that a lower bound adds to the filter.
pub open spec fn lower_clause(b: TimeBoundView) -> Seq<char> {
    match b {
        TimeBoundView::Inclusive(t) => " AND time >= "@ + expr_text(t),
        TimeBoundView::Exclusive(t) => " AND time > "@ + expr_text(t),
        TimeBoundView::Unbounded => Seq::empty(),
    }
}

/// The comparison that an upper bound adds to the filter.
pub open spec fn upper_clause(b: TimeBoundView) -> Seq<char> {
    match b {
        TimeBoundView::Inclusive(t) => " AND time <= "@ + expr_text(t),
        TimeBoundView::Exclusive(t) => " AND time < "@ + expr_text(t),
        TimeBoundView::Unbounded => Seq::empty(),
    }
}

/// The filter for a range: never a tombstone; with a range, the points
/// inside it; without one, only the latest point.
pub open spec fn clauses_of(range: Option<TimeRangeView>) -> Seq<char> {
    match range {
        Some(r) => "WHERE kind!='DEL'"@ + lower_clause(r.start) + upper_clause(r.end),
        None => "WHERE kind!='DEL'"@ + " ORDER BY time DESC LIMIT 1"@,
    }
}

/// The range that the text of a query's parameters asks for; none when it
/// cannot be read.
pub open spec fn range_of_parameters(text: Seq<char>) -> Option<TimeRangeView> {
    if parses_safely(text) {
        time_range_of_text(text)
    } else {
        None
    }
}

/// Appends one end of a range to a filter.
pub fn write_timeexpr(s: &mut String, t: &TimeExpr)
    requires
        t@.wf(),
    ensures
        final(s)@ == old(s)@ + expr_text(t@),
{
    match t {
        TimeExpr::Fixed { secs, nanos } => {
            push_text(s, "'");
            let text = format_instant(*secs, *nanos);
            push_text(s, text.as_str());
            push_text(s, "'");
            assert(s@ =~= old(s)@ + expr_text(t@));
        },
        TimeExpr::Now { offset } => {
            push_text(s, "now()");
            let chars = chars_of(offset.as_str());
            if !(chars.len() > 0 && chars[0] == '-') {
                s.push('+');
            }
            push_text(s, offset.as_str());
            push_text(s, "s");
            assert(s@ =~= old(s)@ + expr_text(t@));
        },
    }
}

/// Reads the range that the text of a query's parameters asks for.
pub fn parse_parameters(p: &str) -> (r: Option<TimeRange>)
    ensures
        range_view(r) == range_of_parameters(p@),
        r matches Some(range) ==> range@.wf(),
{
    let chars = chars_of(p);
    let range_form = contains_part(&chars, "..");
    let duration_form = contains_part(&chars, ";");
    if (!range_form && duration_form) || contains_part(&chars, "(s)") || contains_part(
        &chars,
        "(-s)",
    ) {
        None
    } else {
        parse_time_range(p)
    }
}

/// The filter for a range that was read, or for none.
pub fn clauses_from_range(range: &Option<TimeRange>) -> (clauses: String)
    requires
        range matches Some(r) ==> r@.wf(),
    ensures
        clauses@ == clauses_of(range_view(*range)),
{
    let mut result = String::new();
    push_text(&mut result, "WHERE kind!='DEL'");
    match range {
        Some(r) => {
            let ghost base = result@;
            match &r.start {
                TimeBound::Inclusive(t) => {
                    push_text(&mut result, " AND time >= ");
                    write_timeexpr(&mut result, t);
                },
                TimeBound::Exclusive(t) => {
                    push_text(&mut result, " AND time > ");
                    write_timeexpr(&mut result, t);
                },
                TimeBound::Unbounded => {},
            }
            assert(result@ =~= base + lower_clause(r.start@));
            let ghost lower = result@;
            match &r.end {
                TimeBound::Inclusive(t) => {
                    push_text(&mut result, " AND time <= ");
                    write_timeexpr(&mut result, t);
                },
                TimeBound::Exclusive(t) => {
                    push_text(&mut result, " AND time < ");
                    write_timeexpr(&mut result, t);
                },
                TimeBound::Unbounded => {},
            }
            assert(result@ =~= lower + upper_clause(r.end@));
        },
        None => {
            push_text(&mut result, " ORDER BY time DESC LIMIT 1");
        },
    }
    result
}

/// The filter for the parameters of a query. A text that is no time range
/// does not fail the query: it asks for the latest point.
pub fn clauses_from_parameters(p: &str) -> (clauses: String)
    ensures
        clauses@ == clauses_of(range_of_parameters(p@)),
{
    let range = parse_parameters(p);
    clauses_from_range(&range)
}

/// Without a readable range the filter asks for the latest point that is no
/// tombstone, and for nothing else.
pub proof fn lemma_unreadable_gives_latest(text: Seq<char>)
    requires
        range_of_parameters(text) is None,
    ensures
        clauses_of(range_of_parameters(text)) == "WHERE kind!='DEL'"@
            + " ORDER BY time DESC LIMIT 1"@,
{
}

/// A range bounded on both sides gives a lower and an upper comparison, each
/// strict exactly when its bound is exclusive; a range bounded below only
/// gives the lower comparison alone.
pub proof fn lemma_bounds_give_comparisons(lower: TimeExprView, upper: TimeExprView)
    ensures
        clauses_of(
            Some(
                TimeRangeView {
                    start: TimeBoundView::Inclusive(lower),
                    end: TimeBoundView::Inclusive(upper),
                },
            ),
        ) == "WHERE kind!='DEL'"@ + (" AND time >= "@ + expr_text(lower)) + (" AND time <= "@
            + expr_text(upper)),
        clauses_of(
            Some(
                TimeRangeView {
                    start: TimeBoundView::Exclusive(lower),
                    end: TimeBoundView::Exclusive(upper),
                },
            ),
        ) == "WHERE kind!='DEL'"@ + (" AND time > "@ + expr_text(lower)) + (" AND time < "@
            + expr_text(upper)),
        clauses_of(
            Some(
                TimeRangeView {
                    start: TimeBoundView::Inclusive(lower),
                    end: TimeBoundView::Exclusive(upper),
                },
            ),
        ) == "WHERE kind!='DEL'"@ + (" AND time >= "@ + expr_text(lower)) + (" AND time < "@
            + expr_text(upper)),
        clauses_of(
            Some(
                TimeRangeView {
                    start: TimeBoundView::Exclusive(lower),
                    end: TimeBoundView::Inclusive(upper),
                },
            ),
        ) == "WHERE kind!='DEL'"@ + (" AND time > "@ + expr_text(lower)) + (" AND time <= "@
            + expr_text(upper)),
        clauses_of(
            Some(
                TimeRangeView {
                    start: TimeBoundView::Inclusive(lower),
                    end: TimeBoundView::Unbounded,
                },
            ),
        ) == "WHERE kind!='DEL'"@ + (" AND time >= "@ + expr_text(lower)),
        clauses_of(
            Some(
                TimeRangeView {
                    start: TimeBoundView::Exclusive(lower),
                    end: TimeBoundView::Unbounded,
                },
            ),
        ) == "WHERE kind!='DEL'"@ + (" AND time > "@ + expr_text(lower)),
{
    let base = "WHERE kind!='DEL'"@;
    assert(base + (" AND time >= "@ + expr_text(lower)) + Seq::<char>::empty() =~= base + (
    " AND time >= "@ + expr_text(lower)));
    assert(base + (" AND time > "@ + expr_text(lower)) + Seq::<char>::empty() =~= base + (
    " AND time > "@ + expr_text(lower)));
}

} // verus!
