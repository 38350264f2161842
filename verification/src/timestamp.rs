//! Logical timestamps: a clock value and the identifier of the node that
//! issued it. They order every put and delete; the database indexes a point
//! by the clock value alone, in nanoseconds.

use crate::text::{decimal, lower_hex};
use std::str::FromStr;
use vstd::prelude::*;

verus! {

/// A logical timestamp.
///
/// `time` is the clock value, 32 bits of seconds since the Unix epoch above
/// 32 bits of fraction. `id` is the identifier of the issuing node as the
/// number by which identifiers are ordered: its sixteen bytes, in the order
/// in which they are compared, most significant first.
#[derive(Clone, Copy, Debug, PartialEq, Eq, Structural)]
pub struct Timestamp {
    pub time: u64,
    pub id: u128,
}

/// Whether `a` comes strictly before `b`: by the clock value, then by the
/// identifier.
pub open spec fn earlier(a: Timestamp, b: Timestamp) -> bool {
    a.time < b.time || (a.time == b.time && a.id < b.id)
}

/// Whether `a` comes before `b` or equals it.
pub open spec fn not_later(a: Timestamp, b: Timestamp) -> bool {
    earlier(a, b) || a == b
}

/// The time at which the database files a point with clock value `time`:
/// nanoseconds since the epoch, the fraction rounded up.
pub open spec fn ntp_nanos(time: u64) -> nat {
    let secs = time as nat / 0x1_0000_0000;
    let frac = time as nat % 0x1_0000_0000;
    secs * 1_000_000_000 + (frac * 1_000_000_000 + 0xFFFF_FFFF) / 0x1_0000_0000
}

/// What `uhlc::Timestamp::from_str` makes of a text; `None` where it
/// refuses it.
pub uninterp spec fn timestamp_of_text(text: Seq<char>) -> Option<Timestamp>;

/// The number whose bytes are the `count` lowest bytes of `n` in the
/// opposite order, behind those of `acc`.
pub open spec fn bytes_reversed(n: nat, count: nat, acc: nat) -> nat
    decreases count,
{
    if count == 0 {
        acc
    } else {
        bytes_reversed(n / 256, (count - 1) as nat, acc * 256 + n % 256)
    }
}

/// The identifier as the node itself numbers it and as it is written: the
/// sixteen bytes of `id` read from the last to the first.
pub open spec fn id_number(id: u128) -> nat {
    bytes_reversed(id as nat, 16, 0)
}

/// The text in which a timestamp is stored: the clock value in decimal, a
/// slash, and the number of the node in hexadecimal, in lower case and
/// without leading zeros.
pub open spec fn timestamp_text(t: Timestamp) -> Seq<char> {
    decimal(t.time as nat) + seq!['/'] + lower_hex(id_number(t.id))
}

/// Calls `zenoh::time::Timestamp::from_str` (uhlc's parser of
/// `<clock value>/<identifier in hexadecimal>`) and hands the two parts back
/// as numbers. The parser refuses an identifier of zero, so none comes back.
#[verifier::external_body]
fn parse_timestamp(text: &str) -> (r: Option<Timestamp>)
    ensures
        r == timestamp_of_text(text@),
        r matches Some(t) ==> t.wf(),
{
    let t = zenoh::time::Timestamp::from_str(text).ok()?;
    Some(Timestamp { time: t.get_time().as_u64(), id: u128::from_be_bytes(t.get_id().to_le_bytes()) })
}

/// Builds the `zenoh::time::Timestamp` with these two parts and writes it
/// with its `Display`: uhlc writes the clock value as a decimal `u64`, a
/// slash, and the identifier, taken as a little-endian number, in lower-case
/// hexadecimal. It reads back what it has written: parsing the text gives
/// the same timestamp.
#[verifier::external_body]
fn format_timestamp(t: &Timestamp) -> (text: String)
    requires
        t.wf(),
    ensures
        text@ == timestamp_text(*t),
        timestamp_of_text(text@) == Some(*t),
{
    let id = zenoh::time::TimestampId::try_from(u128::from_le_bytes(t.id.to_be_bytes())).unwrap();
    zenoh::time::Timestamp::new(zenoh::time::NTP64(t.time), id).to_string()
}

/// Calls `uhlc::NTP64::to_duration` and takes the duration in nanoseconds:
/// the seconds of the clock value, and its fraction of 2^32 scaled to
/// nanoseconds and rounded up.
#[verifier::external_body]
fn ntp_to_nanos(time: u64) -> (nanos: u64)
    ensures
        nanos == ntp_nanos(time),
{
    zenoh::time::NTP64(time).to_duration().as_nanos() as u64
}

impl Timestamp {
    /// A timestamp can be written and read back when its identifier is not
    /// zero.
    pub open spec fn wf(self) -> bool {
        self.id != 0
    }

    /// The timestamp with these parts; none for the identifier zero, which
    /// no node has.
    pub fn new(time: u64, id: u128) -> (r: Option<Timestamp>)
        ensures
            r == if id != 0 {
                Some(Timestamp { time, id })
            } else {
                None
            },
    {
        if id != 0 {
            Some(Timestamp { time, id })
        } else {
            None
        }
    }

    /// Reads a timestamp from the text in which it is stored.
    pub fn parse(text: &str) -> (r: Option<Timestamp>)
        ensures
            r == timestamp_of_text(text@),
            r matches Some(t) ==> t.wf(),
    {
        parse_timestamp(text)
    }

    /// The text in which the timestamp is stored; reading it gives the
    /// timestamp back.
    pub fn to_text(&self) -> (text: String)
        requires
            self.wf(),
        ensures
            text@ == timestamp_text(*self),
            timestamp_of_text(text@) == Some(*self),
    {
        format_timestamp(self)
    }

    /// The time at which the database files a point with this timestamp.
    pub fn nanos(&self) -> (nanos: u64)
        ensures
            nanos == ntp_nanos(self.time),
    {
        ntp_to_nanos(self.time)
    }

    /// Whether this timestamp comes strictly before `other`.
    pub fn is_earlier(&self, other: &Timestamp) -> (r: bool)
        ensures
            r == earlier(*self, *other),
    {
        self.time < other.time || (self.time == other.time && self.id < other.id)
    }

    /// Whether this timestamp comes before `other` or equals it.
    pub fn is_not_later(&self, other: &Timestamp) -> (r: bool)
        ensures
            r == not_later(*self, *other),
    {
        self.time < other.time || (self.time == other.time && self.id <= other.id)
    }
}

/// Timestamps are totally ordered: of two, one is earlier or they are equal,
/// and never both.
pub proof fn lemma_order_total(a: Timestamp, b: Timestamp)
    ensures
        earlier(a, b) || earlier(b, a) || a == b,
        !(earlier(a, b) && earlier(b, a)),
        !(earlier(a, b) && a == b),
        not_later(a, b) <==> !earlier(b, a),
{
}

/// The order is transitive.
pub proof fn lemma_order_transitive(a: Timestamp, b: Timestamp, c: Timestamp)
    requires
        not_later(a, b),
        not_later(b, c),
    ensures
        not_later(a, c),
        earlier(a, b) || earlier(b, c) ==> earlier(a, c),
{
}

/// The database's time never runs against the clock: a later clock value is
/// filed at the same nanosecond or a later one.
pub proof fn lemma_nanos_monotone(a: u64, b: u64)
    requires
        a <= b,
    ensures
        ntp_nanos(a) <= ntp_nanos(b),
{
    let two32: int = 0x1_0000_0000;
    let sa = a as int / two32;
    let fa = a as int % two32;
    let sb = b as int / two32;
    let fb = b as int % two32;
    assert(a as int == sa * two32 + fa && 0 <= fa < two32) by (nonlinear_arith)
        requires
            sa == a as int / two32,
            fa == a as int % two32,
            two32 == 0x1_0000_0000,
    ;
    assert(b as int == sb * two32 + fb && 0 <= fb < two32) by (nonlinear_arith)
        requires
            sb == b as int / two32,
            fb == b as int % two32,
            two32 == 0x1_0000_0000,
    ;
    let na = (fa * 1_000_000_000 + 0xFFFF_FFFF) / two32;
    let nb = (fb * 1_000_000_000 + 0xFFFF_FFFF) / two32;
    assert(0 <= na <= 1_000_000_000 && 0 <= nb <= 1_000_000_000) by (nonlinear_arith)
        requires
            na == (fa * 1_000_000_000 + 0xFFFF_FFFF) / two32,
            nb == (fb * 1_000_000_000 + 0xFFFF_FFFF) / two32,
            0 <= fa < two32,
            0 <= fb < two32,
            two32 == 0x1_0000_0000,
    ;
    if sa == sb {
        assert(fa <= fb);
        assert(na <= nb) by (nonlinear_arith)
            requires
                na == (fa * 1_000_000_000 + 0xFFFF_FFFF) / two32,
                nb == (fb * 1_000_000_000 + 0xFFFF_FFFF) / two32,
                0 <= fa <= fb,
                two32 == 0x1_0000_0000,
        ;
    } else {
        assert(sa < sb) by (nonlinear_arith)
            requires
                a as int == sa * two32 + fa,
                b as int == sb * two32 + fb,
                0 <= fa < two32,
                0 <= fb < two32,
                a <= b,
                sa != sb,
                two32 == 0x1_0000_0000,
        ;
        assert(sa * 1_000_000_000 + na <= sb * 1_000_000_000 + nb) by (nonlinear_arith)
            requires
                sa < sb,
                0 <= na <= 1_000_000_000,
                0 <= nb,
        ;
    }
}

/// The database's time of any clock value fits in 64 bits.
pub proof fn lemma_nanos_fit(time: u64)
    ensures
        ntp_nanos(time) <= 4_294_967_296_000_000_000,
        ntp_nanos(time) <= u64::MAX,
{
    let two32: int = 0x1_0000_0000;
    let secs = time as int / two32;
    let frac = time as int % two32;
    let nanos = (frac * 1_000_000_000 + 0xFFFF_FFFF) / two32;
    assert(0 <= secs <= 0xFFFF_FFFF && 0 <= frac < two32) by (nonlinear_arith)
        requires
            secs == time as int / two32,
            frac == time as int % two32,
            two32 == 0x1_0000_0000,
            0 <= time <= 0xFFFF_FFFF_FFFF_FFFF,
    ;
    assert(0 <= nanos <= 1_000_000_000) by (nonlinear_arith)
        requires
            nanos == (frac * 1_000_000_000 + 0xFFFF_FFFF) / two32,
            0 <= frac < two32,
            two32 == 0x1_0000_0000,
    ;
    assert(secs * 1_000_000_000 + nanos <= 4_294_967_296_000_000_000) by (nonlinear_arith)
        requires
            0 <= secs <= 0xFFFF_FFFF,
            0 <= nanos <= 1_000_000_000,
    ;
}

/// A point that the database files strictly before another carries the
/// earlier timestamp, whatever the identifiers.
pub proof fn lemma_nanos_before_is_earlier(a: Timestamp, b: Timestamp)
    requires
        ntp_nanos(a.time) < ntp_nanos(b.time),
    ensures
        earlier(a, b),
{
    if b.time <= a.time {
        lemma_nanos_monotone(b.time, a.time);
    }
}

} // verus!
