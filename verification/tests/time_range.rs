use influx_storage::time_range::{
    clauses_from_parameters, clauses_from_range, parse_parameters, write_timeexpr, TimeBound,
    TimeExpr, TimeRange,
};

const LATEST: &str = "WHERE kind!='DEL' ORDER BY time DESC LIMIT 1";

#[test]
fn unreadable_parameters_ask_for_the_latest_point() {
    assert_eq!(clauses_from_parameters("[,]"), LATEST);
    assert_eq!(clauses_from_parameters(""), LATEST);
    assert_eq!(clauses_from_parameters("nonsense"), LATEST);
    assert_eq!(clauses_from_parameters("[..]x"), LATEST);
    assert_eq!(clauses_from_parameters("[2020..]"), LATEST);
}

#[test]
fn fully_bounded_range_gives_both_comparisons() {
    assert_eq!(
        clauses_from_parameters("[2022-01-01T00:00:00Z..2022-01-02T00:00:00Z]"),
        "WHERE kind!='DEL' AND time >= '2022-01-01T00:00:00Z' AND time <= '2022-01-02T00:00:00Z'"
    );
    assert_eq!(
        clauses_from_parameters("]2022-01-01T00:00:00Z..2022-01-02T00:00:00Z["),
        "WHERE kind!='DEL' AND time > '2022-01-01T00:00:00Z' AND time < '2022-01-02T00:00:00Z'"
    );
    assert_eq!(
        clauses_from_parameters("[now(-1h)..now()["),
        "WHERE kind!='DEL' AND time >= now()-3600s AND time < now()+0s"
    );
}

#[test]
fn lower_bounded_range_gives_only_a_lower_comparison() {
    assert_eq!(
        clauses_from_parameters("[now(-2s)..]"),
        "WHERE kind!='DEL' AND time >= now()-2s"
    );
    assert_eq!(
        clauses_from_parameters("]2022-01-01T00:00:00.5Z..]"),
        "WHERE kind!='DEL' AND time > '2022-01-01T00:00:00.500000000Z'"
    );
}

#[test]
fn upper_bounded_and_unbounded_ranges() {
    assert_eq!(
        clauses_from_parameters("[..now(1.5m)]"),
        "WHERE kind!='DEL' AND time <= now()+90s"
    );
    assert_eq!(clauses_from_parameters("[..]"), "WHERE kind!='DEL'");
}

#[test]
fn duration_form_and_bare_unit_are_not_ranges() {
    assert_eq!(clauses_from_parameters("[now(-1h);30m]"), LATEST);
    assert_eq!(clauses_from_parameters("[2022-01-01T00:00:00Z;-1s]"), LATEST);
    assert_eq!(clauses_from_parameters("[now(s)..]"), LATEST);
    assert_eq!(clauses_from_parameters("[..now(-s)]"), LATEST);
    assert_eq!(clauses_from_parameters("[a;s]"), LATEST);
}

#[test]
fn parsed_range_holds_what_was_written() {
    match parse_parameters("[1970-01-01T00:00:01Z..now(-0.25s)[") {
        Some(TimeRange { start: TimeBound::Inclusive(s), end: TimeBound::Exclusive(e) }) => {
            assert!(matches!(s, TimeExpr::Fixed { secs: 1, nanos: 0 }));
            match e {
                TimeExpr::Now { offset } => assert_eq!(offset, "-0.25"),
                _ => panic!("the end is an offset"),
            }
        }
        _ => panic!("the range should be read"),
    }
    assert!(parse_parameters("[1969-01-01T00:00:00Z..]").is_none());
}

#[test]
fn filter_for_a_given_range() {
    let range = TimeRange {
        start: TimeBound::Exclusive(TimeExpr::Fixed { secs: 0, nanos: 0 }),
        end: TimeBound::Inclusive(TimeExpr::Fixed { secs: 253_402_300_799, nanos: 999_999_999 }),
    };
    assert_eq!(
        clauses_from_range(&Some(range)),
        "WHERE kind!='DEL' AND time > '1970-01-01T00:00:00Z' AND time <= '9999-12-31T23:59:59.999999999Z'"
    );
    assert_eq!(clauses_from_range(&None), LATEST);
}

#[test]
fn time_expression_is_appended() {
    let mut s = String::from("x ");
    write_timeexpr(&mut s, &TimeExpr::Now { offset: String::from("5") });
    assert_eq!(s, "x now()+5s");
    write_timeexpr(&mut s, &TimeExpr::Fixed { secs: 86_400, nanos: 1 });
    assert_eq!(s, "x now()+5s'1970-01-02T00:00:00.000000001Z'");
}

#[test]
fn offset_is_written_with_its_sign() {
    let text = |offset: &str| {
        let mut s = String::new();
        write_timeexpr(&mut s, &TimeExpr::Now { offset: String::from(offset) });
        s
    };
    assert_eq!(text("0"), "now()+0s");
    assert_eq!(text("3600"), "now()+3600s");
    assert_eq!(text("-3600"), "now()-3600s");
    assert_eq!(text("0.5"), "now()+0.5s");
    assert_eq!(text("-0.5"), "now()-0.5s");
    match parse_parameters("[now(1h)..now(-90s)]") {
        Some(TimeRange { start: TimeBound::Inclusive(s), end: TimeBound::Inclusive(e) }) => {
            match (s, e) {
                (TimeExpr::Now { offset: a }, TimeExpr::Now { offset: b }) => {
                    assert_eq!(a, "3600");
                    assert_eq!(b, "-90");
                }
                _ => panic!("both ends are offsets"),
            }
        }
        _ => panic!("the range should be read"),
    }
}
