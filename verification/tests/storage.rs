use influx_storage::engine::{
    compaction_probe, delete_begin, delete_finish, delete_mark, drop_measurement,
    get_all_entries_begin, get_all_entries_finish, get_begin, get_finish, get_tombstones,
    put_begin, put_decide,
    put_finish, DeleteStep, Probe, PutStep, StorageError, StorageInsertionResult,
    DROP_MEASUREMENT_TIMEOUT_MS,
};
use influx_storage::key_codec::KeyExpr;
use influx_storage::point::{Kind, Point, RawPoint, Serie, StoredData};
use influx_storage::query::Query;
use influx_storage::timestamp::Timestamp;
use influx_storage::value::{Encoding, Value};
use regex::Regex;
use std::collections::BTreeMap;

/// A database in memory that does what the statements ask for.
struct Database {
    series: BTreeMap<String, Vec<Point>>,
    log: Vec<String>,
}

fn row(p: &Point) -> RawPoint {
    RawPoint {
        timestamp: p.timestamp.clone(),
        encoding_prefix: p.encoding_prefix,
        encoding_suffix: p.encoding_suffix.clone(),
        base64: p.base64,
        value: p.value.clone(),
    }
}

impl Database {
    fn new() -> Database {
        Database { series: BTreeMap::new(), log: Vec::new() }
    }

    fn write(&mut self, p: Point) {
        let rows = self.series.entry(p.series.clone()).or_default();
        rows.retain(|q| !(q.time == p.time && q.kind == p.kind));
        rows.push(p);
    }

    fn latest_deletion(&mut self, q: &Query) -> Option<String> {
        self.log.push(q.text());
        match q {
            Query::LatestDeletion { series } => self
                .series
                .get(series)
                .and_then(|rows| rows.iter().filter(|p| p.kind == Kind::Del).max_by_key(|p| p.time))
                .map(|p| p.timestamp.clone()),
            _ => panic!("not a question for the latest deletion"),
        }
    }

    fn execute(&mut self, q: &Query) {
        self.log.push(q.text());
        match q {
            Query::DeleteBefore { series, time } => {
                if let Some(rows) = self.series.get_mut(series) {
                    rows.retain(|p| p.time >= *time);
                }
            }
            Query::DropMeasurement { series } => {
                self.series.remove(series);
            }
            _ => panic!("not a statement that changes the database"),
        }
    }

    fn select(&mut self, q: &Query) -> Vec<Serie> {
        self.log.push(q.text());
        let (pattern, latest_only, with_tombstones) = match q {
            Query::Select { pattern, clauses } => match clauses.as_str() {
                "WHERE kind!='DEL'" => (pattern, false, false),
                "WHERE kind!='DEL' ORDER BY time DESC LIMIT 1" => (pattern, true, false),
                other => panic!("unexpected filter {}", other),
            },
            Query::SelectLatest { pattern } => (pattern, true, true),
            Query::LatestDeletions { pattern } => return self.deletions(pattern),
            _ => panic!("not a selection"),
        };
        let matcher = Regex::new(&pattern[1..pattern.len() - 1]).unwrap();
        let mut answer = Vec::new();
        for (name, rows) in self.series.iter() {
            if !matcher.is_match(name) {
                continue;
            }
            let mut rows: Vec<&Point> =
                rows.iter().filter(|p| with_tombstones || p.kind != Kind::Del).collect();
            rows.sort_by_key(|p| std::cmp::Reverse(p.time));
            if latest_only {
                rows.truncate(1);
            }
            if !rows.is_empty() {
                answer.push(Serie { name: name.clone(), values: rows.into_iter().map(row).collect() });
            }
        }
        answer
    }

    fn deletions(&self, pattern: &str) -> Vec<Serie> {
        let matcher = Regex::new(&pattern[1..pattern.len() - 1]).unwrap();
        let mut answer = Vec::new();
        for (name, rows) in self.series.iter() {
            if !matcher.is_match(name) {
                continue;
            }
            if let Some(p) = rows.iter().filter(|p| p.kind == Kind::Del).max_by_key(|p| p.time) {
                answer.push(Serie { name: name.clone(), values: vec![row(p)] });
            }
        }
        answer
    }

    fn probe(&mut self, q: &Query) -> Probe {
        self.log.push(q.text());
        match q {
            Query::ProbeLive { series } => match self.series.get(series) {
                Some(rows) if rows.iter().any(|p| p.kind != Kind::Del) => Probe::Live,
                _ => Probe::Empty,
            },
            _ => panic!("not a probe"),
        }
    }
}

fn key(text: &str) -> Option<KeyExpr> {
    Some(KeyExpr::new(text).ok().unwrap())
}

fn ts(time: u64) -> Timestamp {
    Timestamp::new(time, 1).unwrap()
}

fn secs(s: u64) -> Timestamp {
    ts(s << 32)
}

fn text_value(text: &str) -> Value {
    Value { payload: text.as_bytes().to_vec(), encoding: Encoding { id: 4, schema: None } }
}

fn put(
    db: &mut Database,
    key: &Option<KeyExpr>,
    value: &Value,
    t: Timestamp,
) -> Result<StorageInsertionResult, StorageError> {
    let q = put_begin(key);
    let deletion = db.latest_deletion(&q);
    match put_decide(key, value, &t, Ok(deletion)) {
        PutStep::Write { point } => {
            db.write(point);
            put_finish(Ok(()))
        }
        PutStep::Finish { result } => result,
    }
}

fn delete(
    db: &mut Database,
    key: &Option<KeyExpr>,
    t: Timestamp,
) -> (Result<StorageInsertionResult, StorageError>, Option<String>) {
    db.execute(&delete_begin(key, &t));
    match delete_mark(key, &t, Ok(())) {
        DeleteStep::Write { point } => db.write(point),
        DeleteStep::Fail { .. } => panic!("the removal succeeded"),
    }
    let end = delete_finish(key, Ok(()));
    (end.result, end.compaction.map(|c| {
        assert_eq!(c.delay_ms, DROP_MEASUREMENT_TIMEOUT_MS);
        c.series
    }))
}

fn get(db: &mut Database, key: &Option<KeyExpr>, parameters: &str) -> Vec<(String, Timestamp)> {
    let series = db.select(&get_begin(key, parameters));
    let deletions = db.select(&get_tombstones(key));
    let data: Vec<StoredData> = get_finish(Ok(series), Ok(deletions)).ok().unwrap();
    data.into_iter().map(|d| (String::from_utf8(d.payload).unwrap(), d.timestamp)).collect()
}

fn entries(db: &mut Database) -> Vec<(Option<String>, Timestamp)> {
    let series = db.select(&get_all_entries_begin());
    let all = get_all_entries_finish(Ok(series)).ok().unwrap();
    all.into_iter().map(|(k, t)| (k.map(|k| String::from(k.as_str())), t)).collect()
}

fn check(db: &mut Database, series: &str) {
    let probe = db.probe(&compaction_probe(series));
    if let Some(q) = drop_measurement(series, probe) {
        db.execute(&q);
    }
}

fn inserted(r: Result<StorageInsertionResult, StorageError>) -> bool {
    matches!(r, Ok(StorageInsertionResult::Inserted))
}

fn outdated(r: Result<StorageInsertionResult, StorageError>) -> bool {
    matches!(r, Ok(StorageInsertionResult::Outdated))
}

#[test]
fn put_then_get_then_delete() {
    let mut db = Database::new();
    let k = key("a/b");
    assert!(inserted(put(&mut db, &k, &text_value("hello"), ts(100))));
    assert_eq!(get(&mut db, &k, ""), vec![(String::from("hello"), ts(100))]);
    let (result, compaction) = delete(&mut db, &k, ts(200));
    assert!(matches!(result, Ok(StorageInsertionResult::Deleted)));
    assert_eq!(compaction, Some(String::from("a/b")));
    assert_eq!(get(&mut db, &k, ""), vec![]);
    let all = entries(&mut db);
    assert!(all.contains(&(Some(String::from("a/b")), ts(200))));
    assert!(all.iter().all(|(k, t)| k.as_deref() != Some("a/b") || *t == ts(200)));
}

#[test]
fn statements_of_a_put_and_a_delete() {
    let mut db = Database::new();
    let k = key("a/b");
    assert!(inserted(put(&mut db, &k, &text_value("hello"), secs(1))));
    let _ = get(&mut db, &k, "[..]");
    let _ = delete(&mut db, &k, secs(2));
    assert_eq!(
        db.log,
        vec![
            String::from(r#"SELECT "timestamp" FROM "a/b" WHERE kind='DEL' ORDER BY time DESC LIMIT 1"#),
            String::from(r"SELECT * FROM /^a\/b$/ WHERE kind!='DEL'"),
            String::from(r#"SELECT "timestamp" FROM /^a\/b$/ WHERE kind='DEL' ORDER BY time DESC LIMIT 1"#),
            String::from(r#"DELETE FROM "a/b" WHERE time < 2000000000"#),
        ]
    );
}

#[test]
fn delete_hides_an_older_put_that_came_first() {
    let mut db = Database::new();
    let k = key("a/b");
    assert!(inserted(put(&mut db, &k, &text_value("v"), secs(1))));
    let _ = delete(&mut db, &k, secs(2));
    assert_eq!(get(&mut db, &k, "[..]"), vec![]);
}

#[test]
fn delete_hides_an_older_put_that_came_late() {
    let mut db = Database::new();
    let k = key("a/b");
    let _ = delete(&mut db, &k, secs(2));
    assert!(outdated(put(&mut db, &k, &text_value("v"), secs(1))));
    assert_eq!(get(&mut db, &k, "[..]"), vec![]);
}

#[test]
fn outdated_put_changes_nothing() {
    let mut db = Database::new();
    let k = key("a/b");
    assert!(inserted(put(&mut db, &k, &text_value("old"), secs(1))));
    let _ = delete(&mut db, &k, secs(5));
    assert!(inserted(put(&mut db, &k, &text_value("new"), secs(7))));
    let before = get(&mut db, &k, "[..]");
    assert_eq!(before, vec![(String::from("new"), secs(7))]);
    assert!(outdated(put(&mut db, &k, &text_value("late"), secs(3))));
    assert!(outdated(put(&mut db, &k, &text_value("same"), secs(5))));
    assert_eq!(get(&mut db, &k, "[..]"), before);
}

#[test]
fn put_at_the_time_of_the_deletion_is_outdated() {
    let k = key("a/b");
    let t = Timestamp::new(500, 9).unwrap();
    let same = put_decide(&k, &text_value("v"), &t, Ok(Some(t.to_text())));
    assert!(matches!(same, PutStep::Finish { result: Ok(StorageInsertionResult::Outdated) }));
    let by_earlier_node = Timestamp::new(500, 8).unwrap();
    let r = put_decide(&k, &text_value("v"), &by_earlier_node, Ok(Some(t.to_text())));
    assert!(matches!(r, PutStep::Finish { result: Ok(StorageInsertionResult::Outdated) }));
    let by_later_node = Timestamp::new(500, 10).unwrap();
    let r = put_decide(&k, &text_value("v"), &by_later_node, Ok(Some(t.to_text())));
    assert!(matches!(r, PutStep::Write { .. }));
}

#[test]
fn put_writes_the_point_of_the_value() {
    let k = key("a/b");
    let t = Timestamp::new((3 << 32) + 1, 1u128 << 120).unwrap();
    match put_decide(&k, &text_value("hello"), &t, Ok(None)) {
        PutStep::Write { point } => {
            assert_eq!(point.series, "a/b");
            assert_eq!(point.time, 3_000_000_001);
            assert_eq!(point.kind, Kind::Put);
            assert_eq!(point.kind.tag(), "PUT");
            assert_eq!(point.timestamp, "12884901889/1");
            assert_eq!(point.encoding_prefix, 4);
            assert_eq!(point.encoding_suffix, "text/plain");
            assert!(!point.base64);
            assert_eq!(point.value, "hello");
        }
        _ => panic!("nothing was deleted"),
    }
    let binary = Value { payload: vec![0xff, 0xfe], encoding: Encoding { id: 0, schema: None } };
    match put_decide(&None, &binary, &t, Ok(None)) {
        PutStep::Write { point } => {
            assert_eq!(point.series, "@@none_key@@");
            assert_eq!(point.encoding_prefix, 0);
            assert_eq!(point.encoding_suffix, "zenoh/bytes");
            assert!(point.base64);
            assert_eq!(point.value, "//4=");
        }
        _ => panic!("nothing was deleted"),
    }
}

#[test]
fn delete_writes_a_tombstone() {
    let t = Timestamp::new(7 << 32, 1u128 << 120).unwrap();
    match delete_mark(&key("a/b"), &t, Ok(())) {
        DeleteStep::Write { point } => {
            assert_eq!(point.series, "a/b");
            assert_eq!(point.time, 7_000_000_000);
            assert_eq!(point.kind, Kind::Del);
            assert_eq!(point.kind.tag(), "DEL");
            assert_eq!(point.timestamp, "30064771072/1");
            assert_eq!(point.encoding_prefix, 0);
            assert_eq!(point.encoding_suffix, "");
            assert!(!point.base64);
            assert_eq!(point.value, "");
        }
        _ => panic!("the removal succeeded"),
    }
}

#[test]
fn failures_of_the_database_are_reported() {
    let k = key("a/b");
    let t = ts(100);
    match put_decide(&k, &text_value("v"), &t, Err(String::from("no route"))) {
        PutStep::Finish { result: Err(StorageError::BackendUnavailable { message }) } => {
            assert_eq!(message, "no route")
        }
        _ => panic!("the question failed"),
    }
    match put_decide(&k, &text_value("v"), &t, Ok(Some(String::from("garbage")))) {
        PutStep::Finish { result: Err(StorageError::Decode { text }) } => assert_eq!(text, "garbage"),
        _ => panic!("the timestamp cannot be read"),
    }
    match put_finish(Err(String::from("refused"))) {
        Err(StorageError::BackendUnavailable { message }) => assert_eq!(message, "refused"),
        _ => panic!("the write failed"),
    }
    match delete_mark(&k, &t, Err(String::from("refused"))) {
        DeleteStep::Fail { error: StorageError::BackendUnavailable { message } } => {
            assert_eq!(message, "refused")
        }
        _ => panic!("the removal failed"),
    }
    let end = delete_finish(&k, Err(String::from("refused")));
    assert!(matches!(end.result, Err(StorageError::BackendUnavailable { .. })));
    assert!(end.compaction.is_none());
    assert!(matches!(
        get_finish(Err(String::from("down")), Ok(Vec::new())),
        Err(StorageError::BackendUnavailable { .. })
    ));
    match get_finish(Ok(Vec::new()), Err(String::from("no tombstones"))) {
        Err(StorageError::BackendUnavailable { message }) => assert_eq!(message, "no tombstones"),
        _ => panic!("the second statement failed"),
    }
    match get_finish(Err(String::from("first")), Err(String::from("second"))) {
        Err(StorageError::BackendUnavailable { message }) => assert_eq!(message, "first"),
        _ => panic!("the first statement failed"),
    }
    assert!(matches!(
        get_all_entries_finish(Err(String::from("down"))),
        Err(StorageError::BackendUnavailable { .. })
    ));
}

#[test]
fn check_removes_a_series_of_tombstones() {
    let mut db = Database::new();
    let k = key("a/b");
    assert!(inserted(put(&mut db, &k, &text_value("v"), secs(1))));
    let (_, compaction) = delete(&mut db, &k, secs(2));
    check(&mut db, &compaction.unwrap());
    assert!(!db.series.contains_key("a/b"));
    assert!(entries(&mut db).is_empty());
}

#[test]
fn check_keeps_a_series_with_a_newer_put() {
    let mut db = Database::new();
    let k = key("a/b");
    let (_, compaction) = delete(&mut db, &k, secs(2));
    assert!(inserted(put(&mut db, &k, &text_value("again"), secs(3))));
    check(&mut db, &compaction.unwrap());
    assert_eq!(db.series.get("a/b").map(|rows| rows.len()), Some(2));
    assert_eq!(get(&mut db, &k, "[..]"), vec![(String::from("again"), secs(3))]);
}

#[test]
fn check_decides_by_the_answer_of_the_database() {
    assert!(drop_measurement("a/b", Probe::Live).is_none());
    assert!(drop_measurement("a/b", Probe::Unreadable).is_none());
    assert!(drop_measurement("a/b", Probe::Failed).is_none());
    match drop_measurement("a/b", Probe::Empty) {
        Some(q) => assert_eq!(q.text(), r#"DROP MEASUREMENT "a/b""#),
        None => panic!("an empty series is removed"),
    }
    assert_eq!(
        compaction_probe("a/b").text(),
        r#"SELECT "kind" FROM "a/b" WHERE kind!='DEL' LIMIT 1"#
    );
}

#[test]
fn get_asks_for_the_series_of_the_key() {
    assert_eq!(
        get_begin(&key("a/b"), "").text(),
        r"SELECT * FROM /^a\/b$/ WHERE kind!='DEL' ORDER BY time DESC LIMIT 1"
    );
    assert_eq!(
        get_begin(&None, "[now(-1h)..]").text(),
        "SELECT * FROM /^@@none_key@@$/ WHERE kind!='DEL' AND time >= now()-3600s"
    );
    assert_eq!(
        get_all_entries_begin().text(),
        "SELECT * FROM /^.*$/ ORDER BY time DESC LIMIT 1"
    );
}

#[test]
fn entry_without_key_is_stored_and_listed() {
    let mut db = Database::new();
    assert!(inserted(put(&mut db, &None, &text_value("root"), ts(100))));
    assert!(inserted(put(&mut db, &key("a"), &text_value("x"), ts(300))));
    assert_eq!(get(&mut db, &None, ""), vec![(String::from("root"), ts(100))]);
    let all = entries(&mut db);
    assert_eq!(all, vec![(None, ts(100)), (Some(String::from("a")), ts(300))]);
}

fn at(time: u64, id: u128) -> Timestamp {
    Timestamp::new(time, id).unwrap()
}

#[test]
fn delete_hides_a_put_of_the_same_nanosecond_that_came_first() {
    let mut db = Database::new();
    let k = key("a/b");
    let (t1, t2) = (at(5 << 32, 1), at(5 << 32, 2));
    assert_eq!(t1.nanos(), t2.nanos());
    assert!(inserted(put(&mut db, &k, &text_value("v"), t1)));
    assert_eq!(get(&mut db, &k, "[..]"), vec![(String::from("v"), t1)]);
    let _ = delete(&mut db, &k, t2);
    assert_eq!(db.series.get("a/b").map(|rows| rows.len()), Some(2));
    assert_eq!(get(&mut db, &k, "[..]"), vec![]);
    assert_eq!(get(&mut db, &k, ""), vec![]);
}

#[test]
fn delete_hides_a_put_of_the_same_nanosecond_that_came_late() {
    let mut db = Database::new();
    let k = key("a/b");
    let (t1, t2) = (at(5 << 32, 1), at(5 << 32, 2));
    let _ = delete(&mut db, &k, t2);
    assert!(outdated(put(&mut db, &k, &text_value("v"), t1)));
    assert_eq!(get(&mut db, &k, "[..]"), vec![]);
    assert_eq!(get(&mut db, &k, ""), vec![]);
}

#[test]
fn clock_values_that_round_to_one_nanosecond_are_told_apart() {
    let (t1, t2) = (at((5 << 32) + 1, 9), at((5 << 32) + 2, 1));
    assert_eq!(t1.nanos(), t2.nanos());
    assert!(t1.is_earlier(&t2));
    let k = key("a/b");
    let mut first = Database::new();
    assert!(inserted(put(&mut first, &k, &text_value("v"), t1)));
    let _ = delete(&mut first, &k, t2);
    let mut last = Database::new();
    let _ = delete(&mut last, &k, t2);
    assert!(outdated(put(&mut last, &k, &text_value("v"), t1)));
    assert_eq!(get(&mut first, &k, "[..]"), vec![]);
    assert_eq!(get(&mut first, &k, "[..]"), get(&mut last, &k, "[..]"));
}

#[test]
fn put_after_a_delete_of_the_same_nanosecond_is_shown() {
    let mut db = Database::new();
    let k = key("a/b");
    let (t2, t3) = (at(5 << 32, 2), at(5 << 32, 3));
    let _ = delete(&mut db, &k, t2);
    assert!(inserted(put(&mut db, &k, &text_value("later"), t3)));
    assert_eq!(get(&mut db, &k, "[..]"), vec![(String::from("later"), t3)]);
}

#[test]
fn get_asks_for_the_tombstone_of_the_key() {
    assert_eq!(
        get_tombstones(&key("a/b")).text(),
        r#"SELECT "timestamp" FROM /^a\/b$/ WHERE kind='DEL' ORDER BY time DESC LIMIT 1"#
    );
}
