//! The statements that the storage sends to the database, each with the
//! exact text in which it is sent.

use crate::text::{decimal, push_decimal, push_text};
use vstd::prelude::*;

verus! {

/// A statement for the database.
pub enum Query {
    /// The timestamp of the latest tombstone of a series.
    LatestDeletion { series: String },
    /// The timestamp of the latest tombstone of every series that a pattern
    /// matches.
    LatestDeletions { pattern: String },
    /// Removes the points of a series that are filed before `time`.
    DeleteBefore { series: String, time: u64 },
    /// All fields of the points that a filter lets through, in the series
    /// that a pattern matches.
    Select { pattern: String, clauses: String },
    /// The latest point of every series that a pattern matches.
    SelectLatest { pattern: String },
    /// One point of a series that is no tombstone, if there is any.
    ProbeLive { series: String },
    /// Removes a series.
    DropMeasurement { series: String },
    /// Removes a database.
    DropDatabase { db: String },
    /// Removes every series of the database.
    DropAllSeries,
    /// The names of the databases.
    ShowDatabases,
    /// Creates a database.
    CreateDatabase { db: String },
    /// Gives a user every right on a database.
    GrantAll { db: String, user: String },
}

/// The mathematical value of a [`Query`].
pub enum QueryView {
    LatestDeletion { series: Seq<char> },
    LatestDeletions { pattern: Seq<char> },
    DeleteBefore { series: Seq<char>, time: u64 },
    Select { pattern: Seq<char>, clauses: Seq<char> },
    SelectLatest { pattern: Seq<char> },
    ProbeLive { series: Seq<char> },
    DropMeasurement { series: Seq<char> },
    DropDatabase { db: Seq<char> },
    DropAllSeries,
    ShowDatabases,
    CreateDatabase { db: Seq<char> },
    GrantAll { db: Seq<char>, user: Seq<char> },
}

impl View for Query {
    type V = QueryView;

    open spec fn view(&self) -> QueryView {
        match *self {
            Query::LatestDeletion { series } => QueryView::LatestDeletion { series: series@ },
            Query::LatestDeletions { pattern } => QueryView::LatestDeletions {
                pattern: pattern@,
            },
            Query::DeleteBefore { series, time } => QueryView::DeleteBefore {
                series: series@,
                time,
            },
            Query::Select { pattern, clauses } => QueryView::Select {
                pattern: pattern@,
                clauses: clauses@,
            },
            Query::SelectLatest { pattern } => QueryView::SelectLatest { pattern: pattern@ },
            Query::ProbeLive { series } => QueryView::ProbeLive { series: series@ },
            Query::DropMeasurement { series } => QueryView::DropMeasurement { series: series@ },
            Query::DropDatabase { db } => QueryView::DropDatabase { db: db@ },
            Query::DropAllSeries => QueryView::DropAllSeries,
            Query::ShowDatabases => QueryView::ShowDatabases,
            Query::CreateDatabase { db } => QueryView::CreateDatabase { db: db@ },
            Query::GrantAll { db, user } => QueryView::GrantAll { db: db@, user: user@ },
        }
    }
}

/// The text in which a statement is sent.
pub open spec fn query_text(q: QueryView) -> Seq<char> {
    match q {
        QueryView::LatestDeletion { series } => "SELECT \"timestamp\" FROM \""@ + series
            + "\" WHERE kind='DEL' ORDER BY time DESC LIMIT 1"@,
        QueryView::LatestDeletions { pattern } => "SELECT \"timestamp\" FROM "@ + pattern
            + " WHERE kind='DEL' ORDER BY time DESC LIMIT 1"@,
        QueryView::DeleteBefore { series, time } => "DELETE FROM \""@ + series
            + "\" WHERE time < "@ + decimal(time as nat),
        QueryView::Select { pattern, clauses } => "SELECT * FROM "@ + pattern + " "@ + clauses,
        QueryView::SelectLatest { pattern } => "SELECT * FROM "@ + pattern
            + " ORDER BY time DESC LIMIT 1"@,
        QueryView::ProbeLive { series } => "SELECT \"kind\" FROM \""@ + series
            + "\" WHERE kind!='DEL' LIMIT 1"@,
        QueryView::DropMeasurement { series } => "DROP MEASUREMENT \""@ + series + "\""@,
        QueryView::DropDatabase { db } => "DROP DATABASE \""@ + db + "\""@,
        QueryView::DropAllSeries => "DROP SERIES FROM /.*/"@,
        QueryView::ShowDatabases => "SHOW DATABASES"@,
        QueryView::CreateDatabase { db } => "CREATE DATABASE \""@ + db + "\""@,
        QueryView::GrantAll { db, user } => "GRANT ALL ON \""@ + db + "\" TO \""@ + user + "\""@,
    }
}

impl Query {
    /// The text in which the statement is sent.
    pub fn text(&self) -> (text: String)
        ensures
            text@ == query_text(self@),
    {
        let mut out = String::new();
        match self {
            Query::LatestDeletion { series } => {
                push_text(&mut out, "SELECT \"timestamp\" FROM \"");
                push_text(&mut out, series.as_str());
                push_text(&mut out, "\" WHERE kind='DEL' ORDER BY time DESC LIMIT 1");
            },
            Query::LatestDeletions { pattern } => {
                push_text(&mut out, "SELECT \"timestamp\" FROM ");
                push_text(&mut out, pattern.as_str());
                push_text(&mut out, " WHERE kind='DEL' ORDER BY time DESC LIMIT 1");
            },
            Query::DeleteBefore { series, time } => {
                push_text(&mut out, "DELETE FROM \"");
                push_text(&mut out, series.as_str());
                push_text(&mut out, "\" WHERE time < ");
                push_decimal(&mut out, *time);
            },
            Query::Select { pattern, clauses } => {
                push_text(&mut out, "SELECT * FROM ");
                push_text(&mut out, pattern.as_str());
                push_text(&mut out, " ");
                push_text(&mut out, clauses.as_str());
            },
            Query::SelectLatest { pattern } => {
                push_text(&mut out, "SELECT * FROM ");
                push_text(&mut out, pattern.as_str());
                push_text(&mut out, " ORDER BY time DESC LIMIT 1");
            },
            Query::ProbeLive { series } => {
                push_text(&mut out, "SELECT \"kind\" FROM \"");
                push_text(&mut out, series.as_str());
                push_text(&mut out, "\" WHERE kind!='DEL' LIMIT 1");
            },
            Query::DropMeasurement { series } => {
                push_text(&mut out, "DROP MEASUREMENT \"");
                push_text(&mut out, series.as_str());
                push_text(&mut out, "\"");
            },
            Query::DropDatabase { db } => {
                push_text(&mut out, "DROP DATABASE \"");
                push_text(&mut out, db.as_str());
                push_text(&mut out, "\"");
            },
            Query::DropAllSeries => {
                push_text(&mut out, "DROP SERIES FROM /.*/");
            },
            Query::ShowDatabases => {
                push_text(&mut out, "SHOW DATABASES");
            },
            Query::CreateDatabase { db } => {
                push_text(&mut out, "CREATE DATABASE \"");
                push_text(&mut out, db.as_str());
                push_text(&mut out, "\"");
            },
            Query::GrantAll { db, user } => {
                push_text(&mut out, "GRANT ALL ON \"");
                push_text(&mut out, db.as_str());
                push_text(&mut out, "\" TO \"");
                push_text(&mut out, user.as_str());
                push_text(&mut out, "\"");
            },
        }
        assert(out@ =~= query_text(self@));
        out
    }
}

} // verus!
