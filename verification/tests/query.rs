use influx_storage::query::Query;

fn s(text: &str) -> String {
    String::from(text)
}

#[test]
fn statements_have_their_exact_text() {
    assert_eq!(
        Query::LatestDeletion { series: s("a/b") }.text(),
        r#"SELECT "timestamp" FROM "a/b" WHERE kind='DEL' ORDER BY time DESC LIMIT 1"#
    );
    assert_eq!(
        Query::LatestDeletions { pattern: s(r"/^a\/b$/") }.text(),
        r#"SELECT "timestamp" FROM /^a\/b$/ WHERE kind='DEL' ORDER BY time DESC LIMIT 1"#
    );
    assert_eq!(
        Query::DeleteBefore { series: s("a/b"), time: 1_500_000_000 }.text(),
        r#"DELETE FROM "a/b" WHERE time < 1500000000"#
    );
    assert_eq!(
        Query::Select { pattern: s(r"/^a\/b$/"), clauses: s("WHERE kind!='DEL'") }.text(),
        r"SELECT * FROM /^a\/b$/ WHERE kind!='DEL'"
    );
    assert_eq!(
        Query::SelectLatest { pattern: s("/^.*$/") }.text(),
        "SELECT * FROM /^.*$/ ORDER BY time DESC LIMIT 1"
    );
    assert_eq!(
        Query::ProbeLive { series: s("a/b") }.text(),
        r#"SELECT "kind" FROM "a/b" WHERE kind!='DEL' LIMIT 1"#
    );
    assert_eq!(Query::DropMeasurement { series: s("a/b") }.text(), r#"DROP MEASUREMENT "a/b""#);
    assert_eq!(Query::DropDatabase { db: s("db1") }.text(), r#"DROP DATABASE "db1""#);
    assert_eq!(Query::DropAllSeries.text(), "DROP SERIES FROM /.*/");
    assert_eq!(Query::ShowDatabases.text(), "SHOW DATABASES");
    assert_eq!(Query::CreateDatabase { db: s("db1") }.text(), r#"CREATE DATABASE "db1""#);
    assert_eq!(
        Query::GrantAll { db: s("db1"), user: s("bob") }.text(),
        r#"GRANT ALL ON "db1" TO "bob""#
    );
}

#[test]
fn times_are_written_in_decimal() {
    assert_eq!(
        Query::DeleteBefore { series: s("x"), time: 0 }.text(),
        r#"DELETE FROM "x" WHERE time < 0"#
    );
    assert_eq!(
        Query::DeleteBefore { series: s("x"), time: 9 }.text(),
        r#"DELETE FROM "x" WHERE time < 9"#
    );
    assert_eq!(
        Query::DeleteBefore { series: s("x"), time: 10 }.text(),
        r#"DELETE FROM "x" WHERE time < 10"#
    );
    assert_eq!(
        Query::DeleteBefore { series: s("x"), time: u64::MAX }.text(),
        r#"DELETE FROM "x" WHERE time < 18446744073709551615"#
    );
}
