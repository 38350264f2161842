//! The records of the database: the point that a put or a delete writes,
//! and the rows that a query returns, read back into values and timestamps.

use crate::key_codec::{key_of_series_name, key_view, keyexpr_from_serie, KeyExpr};
use crate::text::same_text;
use crate::timestamp::{earlier, ntp_nanos, timestamp_of_text, Timestamp};
use crate::value::{
    decode_payload, encode_payload, payload_of, stored_encoding, stored_value, Encoding,
    EncodingView, Value,
};
use vstd::prelude::*;

verus! {

/// Name of the tag that tells a put from a tombstone.
pub const TAG_KIND: &'static str = "kind";

/// Name of the field that holds the full timestamp.
pub const FIELD_TIMESTAMP: &'static str = "timestamp";

/// Name of the field that holds the number of the encoding.
pub const FIELD_ENCODING_PREFIX: &'static str = "encoding_prefix";

/// Name of the field that holds the name of the encoding.
pub const FIELD_ENCODING_SUFFIX: &'static str = "encoding_suffix";

/// Name of the field that says whether the value is in base64.
pub const FIELD_BASE64: &'static str = "base64";

/// Name of the field that holds the value.
pub const FIELD_VALUE: &'static str = "value";

/// What a point records: a value that was put, or a deletion.
#[derive(Clone, Copy, Debug, PartialEq, Eq, Structural)]
pub enum Kind {
    Put,
    Del,
}

impl Kind {
    /// The text of the tag.
    pub open spec fn tag_text(self) -> Seq<char> {
        match self {
            Kind::Put => "PUT"@,
            Kind::Del => "DEL"@,
        }
    }

    /// The text of the tag.
    pub fn tag(&self) -> (text: &'static str)
        ensures
            text@ == self.tag_text(),
    {
        match self {
            Kind::Put => "PUT",
            Kind::Del => "DEL",
        }
    }
}

/// One record to write: the series, the time at which the database files
/// it, the tag and the fields.
pub struct Point {
    pub series: String,
    pub time: u64,
    pub kind: Kind,
    pub timestamp: String,
    pub encoding_prefix: u16,
    pub encoding_suffix: String,
    pub base64: bool,
    pub value: String,
}

/// The mathematical value of a [`Point`].
pub struct PointView {
    pub series: Seq<char>,
    pub time: u64,
    pub kind: Kind,
    pub timestamp: Seq<char>,
    pub encoding_prefix: u16,
    pub encoding_suffix: Seq<char>,
    pub base64: bool,
    pub value: Seq<char>,
}

impl View for Point {
    type V = PointView;

    open spec fn view(&self) -> PointView {
        PointView {
            series: self.series@,
            time: self.time,
            kind: self.kind,
            timestamp: self.timestamp@,
            encoding_prefix: self.encoding_prefix,
            encoding_suffix: self.encoding_suffix@,
            base64: self.base64,
            value: self.value@,
        }
    }
}

/// The point that records a put: filed at the time of the timestamp, with
/// the timestamp in full, the encoding by number and by name, and the value
/// as text.
pub open spec fn put_point(
    series: Seq<char>,
    payload: Seq<u8>,
    encoding: EncodingView,
    timestamp: Timestamp,
) -> PointView {
    PointView {
        series,
        time: ntp_nanos(timestamp.time) as u64,
        kind: Kind::Put,
        timestamp: crate::timestamp::timestamp_text(timestamp),
        encoding_prefix: encoding.id,
        encoding_suffix: crate::value::encoding_text(encoding),
        base64: stored_value(payload).0,
        value: stored_value(payload).1,
    }
}

/// The tombstone that records a delete: filed at the time of the timestamp,
/// with the timestamp in full and every other field empty.
pub open spec fn del_point(series: Seq<char>, timestamp: Timestamp) -> PointView {
    PointView {
        series,
        time: ntp_nanos(timestamp.time) as u64,
        kind: Kind::Del,
        timestamp: crate::timestamp::timestamp_text(timestamp),
        encoding_prefix: 0,
        encoding_suffix: Seq::empty(),
        base64: false,
        value: Seq::empty(),
    }
}

impl Point {
    /// The point that records the put of `value` at `timestamp`. Its
    /// timestamp field reads back as `timestamp`, and its value as the
    /// payload.
    pub fn put(series: &str, value: &Value, timestamp: &Timestamp) -> (p: Point)
        requires
            timestamp.wf(),
        ensures
            p@ == put_point(series@, value.payload@, value.encoding@, *timestamp),
            p.time == ntp_nanos(timestamp.time),
            timestamp_of_text(p.timestamp@) == Some(*timestamp),
            payload_of(p.base64, p.value@) == Some(value.payload@),
    {
        let (base64, text) = encode_payload(&value.payload);
        Point {
            series: series.to_owned(),
            time: timestamp.nanos(),
            kind: Kind::Put,
            timestamp: timestamp.to_text(),
            encoding_prefix: value.encoding.id,
            encoding_suffix: value.encoding.to_text(),
            base64,
            value: text,
        }
    }

    /// The tombstone that records a delete at `timestamp`. Its timestamp
    /// field reads back as `timestamp`.
    pub fn del(series: &str, timestamp: &Timestamp) -> (p: Point)
        requires
            timestamp.wf(),
        ensures
            p@ == del_point(series@, *timestamp),
            p.time == ntp_nanos(timestamp.time),
            timestamp_of_text(p.timestamp@) == Some(*timestamp),
    {
        let p = Point {
            series: series.to_owned(),
            time: timestamp.nanos(),
            kind: Kind::Del,
            timestamp: timestamp.to_text(),
            encoding_prefix: 0,
            encoding_suffix: String::new(),
            base64: false,
            value: String::new(),
        };
        p
    }
}

/// One row of an answer: the fields of a stored point.
pub struct RawPoint {
    pub timestamp: String,
    pub encoding_prefix: u16,
    pub encoding_suffix: String,
    pub base64: bool,
    pub value: String,
}

/// The mathematical value of a [`RawPoint`].
pub struct RawPointView {
    pub timestamp: Seq<char>,
    pub encoding_prefix: u16,
    pub encoding_suffix: Seq<char>,
    pub base64: bool,
    pub value: Seq<char>,
}

impl View for RawPoint {
    type V = RawPointView;

    open spec fn view(&self) -> RawPointView {
        RawPointView {
            timestamp: self.timestamp@,
            encoding_prefix: self.encoding_prefix,
            encoding_suffix: self.encoding_suffix@,
            base64: self.base64,
            value: self.value@,
        }
    }
}

/// The rows that an answer holds for one series.
pub struct Serie {
    pub name: String,
    pub values: Vec<RawPoint>,
}

/// The mathematical value of a [`Serie`].
pub struct SerieView {
    pub name: Seq<char>,
    pub values: Seq<RawPointView>,
}

/// The views of some rows.
pub open spec fn rows_view(rows: Seq<RawPoint>) -> Seq<RawPointView> {
    Seq::new(rows.len(), |i: int| rows[i]@)
}

impl View for Serie {
    type V = SerieView;

    open spec fn view(&self) -> SerieView {
        SerieView { name: self.name@, values: rows_view(self.values@) }
    }
}

/// The views of some series.
pub open spec fn series_view(series: Seq<Serie>) -> Seq<SerieView> {
    Seq::new(series.len(), |i: int| series[i]@)
}

/// A value read from the database, with the timestamp of its put.
pub struct StoredData {
    pub payload: Vec<u8>,
    pub encoding: Encoding,
    pub timestamp: Timestamp,
}

/// The mathematical value of a [`StoredData`].
pub struct StoredDataView {
    pub payload: Seq<u8>,
    pub encoding: EncodingView,
    pub timestamp: Timestamp,
}

impl View for StoredData {
    type V = StoredDataView;

    open spec fn view(&self) -> StoredDataView {
        StoredDataView {
            payload: self.payload@,
            encoding: self.encoding@,
            timestamp: self.timestamp,
        }
    }
}

/// The views of some values.
pub open spec fn data_view(data: Seq<StoredData>) -> Seq<StoredDataView> {
    Seq::new(data.len(), |i: int| data[i]@)
}

/// What a row stands for; `None` where its value or its timestamp cannot be
/// read.
pub open spec fn decoded_point(p: RawPointView) -> Option<StoredDataView> {
    match (payload_of(p.base64, p.value), timestamp_of_text(p.timestamp)) {
        (Some(payload), Some(timestamp)) => Some(
            StoredDataView {
                payload,
                encoding: stored_encoding(p.encoding_prefix, p.encoding_suffix),
                timestamp,
            },
        ),
        _ => None,
    }
}

/// How much of a series a get may show.
#[derive(Clone, Copy, Debug, PartialEq, Eq, Structural)]
pub enum Cut {
    /// The series has no tombstone: every value is shown.
    Open,
    /// The series was deleted at this timestamp: only later values are shown.
    After { deletion: Timestamp },
    /// The tombstone of the series cannot be read: nothing is shown.
    Unknown,
}

impl Cut {
    /// Whether a value put at `t` is shown. The timestamps decide, not the
    /// time at which the database has filed the points.
    pub open spec fn shows(self, t: Timestamp) -> bool {
        match self {
            Cut::Open => true,
            Cut::After { deletion } => earlier(deletion, t),
            Cut::Unknown => false,
        }
    }

    /// Whether a value put at `t` is shown.
    pub fn is_shown(&self, t: &Timestamp) -> (r: bool)
        ensures
            r == self.shows(*t),
    {
        match self {
            Cut::Open => true,
            Cut::After { deletion } => deletion.is_earlier(t),
            Cut::Unknown => false,
        }
    }
}

/// The text of the tombstone that an answer holds for the series `name`,
/// looked for from the series at `i` on: the first row of the first series
/// with that name that has a row.
pub open spec fn tombstone_from(deletions: Seq<SerieView>, name: Seq<char>, i: int) -> Option<
    Seq<char>,
>
    decreases deletions.len() - i,
{
    if i < 0 || i >= deletions.len() {
        None
    } else if deletions[i].name == name && deletions[i].values.len() > 0 {
        Some(deletions[i].values[0].timestamp)
    } else {
        tombstone_from(deletions, name, i + 1)
    }
}

/// How much of the series `name` may be shown, given the latest tombstone
/// of every series: all of it where it has none, what came after the
/// deletion where it has one, and nothing where its tombstone cannot be
/// read.
pub open spec fn cut_of(deletions: Seq<SerieView>, name: Seq<char>) -> Cut {
    match tombstone_from(deletions, name, 0) {
        None => Cut::Open,
        Some(text) => match timestamp_of_text(text) {
            Some(deletion) => Cut::After { deletion },
            None => Cut::Unknown,
        },
    }
}

/// What the first `n` rows stand for, in order: the rows that can be read
/// and that `cut` shows.
pub open spec fn decoded_points(rows: Seq<RawPointView>, cut: Cut, n: nat) -> Seq<StoredDataView>
    decreases n,
{
    if n == 0 {
        Seq::empty()
    } else {
        match decoded_point(rows[n - 1]) {
            Some(d) => if cut.shows(d.timestamp) {
                decoded_points(rows, cut, (n - 1) as nat).push(d)
            } else {
                decoded_points(rows, cut, (n - 1) as nat)
            },
            None => decoded_points(rows, cut, (n - 1) as nat),
        }
    }
}

/// What the first `n` series of an answer stand for, in order: of every
/// series whose name is a key, the rows that its tombstone does not hide.
pub open spec fn decoded_series(
    series: Seq<SerieView>,
    deletions: Seq<SerieView>,
    n: nat,
) -> Seq<StoredDataView>
    decreases n,
{
    if n == 0 {
        Seq::empty()
    } else if key_of_series_name(series[n - 1].name) is Some {
        decoded_series(series, deletions, (n - 1) as nat) + decoded_points(
            series[n - 1].values,
            cut_of(deletions, series[n - 1].name),
            series[n - 1].values.len(),
        )
    } else {
        decoded_series(series, deletions, (n - 1) as nat)
    }
}

/// Every value that is read from a series came after the deletion of the
/// series, by its timestamp.
pub proof fn lemma_decoded_points_are_shown(rows: Seq<RawPointView>, cut: Cut, n: nat)
    ensures
        forall|i: int|
            0 <= i < decoded_points(rows, cut, n).len() ==> cut.shows(
                #[trigger] decoded_points(rows, cut, n)[i].timestamp,
            ),
    decreases n,
{
    if n > 0 {
        lemma_decoded_points_are_shown(rows, cut, (n - 1) as nat);
    }
}

/// Every value that is read from an answer about one series came after the
/// latest deletion of that series, by its timestamp.
pub proof fn lemma_decoded_series_are_shown(
    series: Seq<SerieView>,
    deletions: Seq<SerieView>,
    name: Seq<char>,
    n: nat,
)
    requires
        n <= series.len(),
        forall|i: int| 0 <= i < n ==> (#[trigger] series[i]).name == name,
    ensures
        forall|i: int|
            0 <= i < decoded_series(series, deletions, n).len() ==> cut_of(deletions, name).shows(
                #[trigger] decoded_series(series, deletions, n)[i].timestamp,
            ),
    decreases n,
{
    if n > 0 {
        lemma_decoded_series_are_shown(series, deletions, name, (n - 1) as nat);
        let last = series[n - 1];
        assert(last.name == name);
        lemma_decoded_points_are_shown(last.values, cut_of(deletions, name), last.values.len());
    }
}

/// The timestamps that the first `n` rows hold, in order, unreadable ones
/// left out.
pub open spec fn decoded_timestamps(rows: Seq<RawPointView>, n: nat) -> Seq<Timestamp>
    decreases n,
{
    if n == 0 {
        Seq::empty()
    } else {
        match timestamp_of_text(rows[n - 1].timestamp) {
            Some(t) => decoded_timestamps(rows, (n - 1) as nat).push(t),
            None => decoded_timestamps(rows, (n - 1) as nat),
        }
    }
}

/// The entries that the first `n` series of an answer stand for, in order:
/// for every series whose name is a key, that key with each timestamp.
pub open spec fn decoded_entries(series: Seq<SerieView>, n: nat) -> Seq<
    (Option<Seq<char>>, Timestamp),
>
    decreases n,
{
    if n == 0 {
        Seq::empty()
    } else {
        match key_of_series_name(series[n - 1].name) {
            Some(key) => decoded_entries(series, (n - 1) as nat) + decoded_timestamps(
                series[n - 1].values,
                series[n - 1].values.len(),
            ).map_values(|t: Timestamp| (key, t)),
            None => decoded_entries(series, (n - 1) as nat),
        }
    }
}

/// The views of some entries.
pub open spec fn entries_view(entries: Seq<(Option<KeyExpr>, Timestamp)>) -> Seq<
    (Option<Seq<char>>, Timestamp),
> {
    Seq::new(entries.len(), |i: int| (key_view(entries[i].0), entries[i].1))
}

/// Reads one row.
pub fn decode_point(p: &RawPoint) -> (r: Option<StoredData>)
    ensures
        match r {
            Some(d) => decoded_point(p@) == Some(d@),
            None => decoded_point(p@) is None,
        },
{
    let encoding = Encoding::from_stored(p.encoding_prefix, p.encoding_suffix.as_str());
    let payload = match decode_payload(p.base64, p.value.as_str()) {
        Some(bytes) => bytes,
        None => {
            return None;
        },
    };
    let timestamp = match Timestamp::parse(p.timestamp.as_str()) {
        Some(t) => t,
        None => {
            return None;
        },
    };
    Some(StoredData { payload, encoding, timestamp })
}

/// Looks up how much of the series `name` may be shown, in the answer that
/// holds the latest tombstone of every series.
pub fn find_cut(deletions: &Vec<Serie>, name: &str) -> (cut: Cut)
    ensures
        cut == cut_of(series_view(deletions@), name@),
{
    let ghost all = series_view(deletions@);
    let mut i: usize = 0;
    while i < deletions.len()
        invariant
            i <= deletions.len(),
            all == series_view(deletions@),
            tombstone_from(all, name@, 0) == tombstone_from(all, name@, i as int),
        decreases deletions.len() - i,
    {
        let serie = &deletions[i];
        assert(all[i as int] == serie@);
        if same_text(serie.name.as_str(), name) && serie.values.len() > 0 {
            assert(all[i as int].values[0] == serie.values@[0]@);
            return match Timestamp::parse(serie.values[0].timestamp.as_str()) {
                Some(deletion) => Cut::After { deletion },
                None => Cut::Unknown,
            };
        }
        i += 1;
    }
    Cut::Open
}

/// Reads the rows of an answer: of every series whose name is a key, the
/// rows that came after the latest deletion of the series, in order. A
/// series whose name is no key and a row that cannot be read are left out;
/// they do not fail the others.
pub fn decode_series(series: &Vec<Serie>, deletions: &Vec<Serie>) -> (data: Vec<StoredData>)
    ensures
        data_view(data@) == decoded_series(
            series_view(series@),
            series_view(deletions@),
            series@.len(),
        ),
{
    let ghost all = series_view(series@);
    let ghost tombs = series_view(deletions@);
    let mut result: Vec<StoredData> = Vec::new();
    let mut i: usize = 0;
    assert(data_view(result@) =~= decoded_series(all, tombs, 0));
    while i < series.len()
        invariant
            i <= series.len(),
            all == series_view(series@),
            tombs == series_view(deletions@),
            data_view(result@) == decoded_series(all, tombs, i as nat),
        decreases series.len() - i,
    {
        let serie = &series[i];
        assert(all[i as int] == serie@);
        if keyexpr_from_serie(serie.name.as_str()).is_ok() {
            let cut = find_cut(deletions, serie.name.as_str());
            let ghost rows = rows_view(serie.values@);
            let ghost before = data_view(result@);
            let mut j: usize = 0;
            assert(data_view(result@) =~= before + decoded_points(rows, cut, 0));
            while j < serie.values.len()
                invariant
                    j <= serie.values.len(),
                    rows == rows_view(serie.values@),
                    data_view(result@) == before + decoded_points(rows, cut, j as nat),
                decreases serie.values.len() - j,
            {
                assert(rows[j as int] == serie.values@[j as int]@);
                let ghost old_view = data_view(result@);
                match decode_point(&serie.values[j]) {
                    Some(d) => {
                        if cut.is_shown(&d.timestamp) {
                            let ghost dv = d@;
                            result.push(d);
                            assert(data_view(result@) =~= old_view.push(dv));
                            assert(before + decoded_points(rows, cut, j as nat).push(dv) =~= (
                            before + decoded_points(rows, cut, j as nat)).push(dv));
                        }
                    },
                    None => {},
                }
                j += 1;
            }
        }
        i += 1;
    }
    result
}

/// Reads the entries of an answer: for every series whose name is a key,
/// that key with the timestamp of each of its rows, in order. A series whose
/// name is no key and a row whose timestamp cannot be read are left out.
pub fn decode_entries(series: &Vec<Serie>) -> (entries: Vec<(Option<KeyExpr>, Timestamp)>)
    ensures
        entries_view(entries@) == decoded_entries(series_view(series@), series@.len()),
{
    let ghost all = series_view(series@);
    let mut result: Vec<(Option<KeyExpr>, Timestamp)> = Vec::new();
    let mut i: usize = 0;
    assert(entries_view(result@) =~= decoded_entries(all, 0));
    while i < series.len()
        invariant
            i <= series.len(),
            all == series_view(series@),
            entries_view(result@) == decoded_entries(all, i as nat),
        decreases series.len() - i,
    {
        let serie = &series[i];
        assert(all[i as int] == serie@);
        match keyexpr_from_serie(serie.name.as_str()) {
            Ok(key) => {
                let ghost kv = key_view(key);
                let ghost rows = rows_view(serie.values@);
                let ghost before = entries_view(result@);
                let mut j: usize = 0;
                assert(entries_view(result@) =~= before + decoded_timestamps(rows, 0).map_values(
                    |t: Timestamp| (kv, t),
                ));
                while j < serie.values.len()
                    invariant
                        j <= serie.values.len(),
                        rows == rows_view(serie.values@),
                        kv == key_view(key),
                        entries_view(result@) == before + decoded_timestamps(
                            rows,
                            j as nat,
                        ).map_values(|t: Timestamp| (kv, t)),
                    decreases serie.values.len() - j,
                {
                    assert(rows[j as int] == serie.values@[j as int]@);
                    let ghost old_view = entries_view(result@);
                    let ghost so_far = decoded_timestamps(rows, j as nat);
                    match Timestamp::parse(serie.values[j].timestamp.as_str()) {
                        Some(t) => {
                            let k = match &key {
                                Some(k) => Some(k.duplicate()),
                                None => None,
                            };
                            result.push((k, t));
                            assert(entries_view(result@) =~= old_view.push((kv, t)));
                            assert(so_far.push(t).map_values(|t: Timestamp| (kv, t))
                                =~= so_far.map_values(|t: Timestamp| (kv, t)).push((kv, t)));
                            assert(before + so_far.map_values(|t: Timestamp| (kv, t)).push((kv, t))
                                =~= (before + so_far.map_values(|t: Timestamp| (kv, t))).push(
                                (kv, t),
                            ));
                        },
                        None => {},
                    }
                    j += 1;
                }
            },
            Err(_) => {},
        }
        i += 1;
    }
    result
}

} // verus!
