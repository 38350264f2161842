use influx_storage::key_codec::{
    influx_regex_all, key_exprs_to_influx_regex, keyexpr_from_serie, to_series_name, KeyExpr,
    NONE_KEY,
};
use regex::Regex;

fn key(text: &str) -> KeyExpr {
    match KeyExpr::new(text) {
        Ok(k) => k,
        Err(e) => panic!("{} should be a key expression", e.name),
    }
}

fn matcher(exprs: &[&str]) -> Regex {
    let keys: Vec<KeyExpr> = exprs.iter().map(|e| key(e)).collect();
    let pattern = key_exprs_to_influx_regex(&keys);
    assert!(pattern.starts_with('/') && pattern.ends_with('/'));
    Regex::new(&pattern[1..pattern.len() - 1]).unwrap()
}

#[test]
fn pattern_texts_are_exact() {
    assert_eq!(key_exprs_to_influx_regex(&[key("a/*")]), r"/^a\/[^\/]*$/");
    assert_eq!(key_exprs_to_influx_regex(&[key("a/**")]), r"/^a\/.*$/");
    assert_eq!(key_exprs_to_influx_regex(&[key("a/b")]), r"/^a\/b$/");
    assert_eq!(
        key_exprs_to_influx_regex(&[key("a/*/c"), key("**"), key("d")]),
        r"/^(a\/[^\/]*\/c|.*|d)$/"
    );
    assert_eq!(key_exprs_to_influx_regex(&[key("a"), key("b/c")]), r"/^(a|b\/c)$/");
    assert_eq!(key_exprs_to_influx_regex(&[]), "/^$/");
    assert_eq!(influx_regex_all(), "/^.*$/");
}

#[test]
fn single_wildcard_matches_one_chunk() {
    let m = matcher(&["a/*"]);
    assert!(m.is_match("a/b"));
    assert!(m.is_match("a/c"));
    assert!(!m.is_match("a/b/c"));
}

#[test]
fn double_wildcard_matches_across_chunks() {
    let m = matcher(&["a/**"]);
    assert!(m.is_match("a/b/c"));
    assert!(m.is_match("a/b"));
}

#[test]
fn patterns_are_anchored() {
    let m = matcher(&["a/*"]);
    assert!(!m.is_match("xa/b"));
    let exact = matcher(&["a/b"]);
    assert!(exact.is_match("a/b"));
    assert!(!exact.is_match("xa/b"));
    assert!(!exact.is_match("a/bx"));
}

#[test]
fn match_all_pattern_matches_every_series() {
    let all = influx_regex_all();
    let m = Regex::new(&all[1..all.len() - 1]).unwrap();
    assert!(m.is_match("a"));
    assert!(m.is_match("a/b/c"));
    assert!(m.is_match(NONE_KEY));
}

#[test]
fn key_goes_to_its_series_and_back() {
    let name = to_series_name(&Some(key("a/b")));
    assert_eq!(name, "a/b");
    match keyexpr_from_serie(&name) {
        Ok(Some(k)) => assert_eq!(k.as_str(), "a/b"),
        _ => panic!("the key should come back"),
    }
}

#[test]
fn absent_key_goes_to_the_reserved_series_and_back() {
    let name = to_series_name(&None);
    assert_eq!(name, "@@none_key@@");
    assert_eq!(name, NONE_KEY);
    assert!(matches!(keyexpr_from_serie(&name), Ok(None)));
}

#[test]
fn invalid_series_name_is_refused() {
    match keyexpr_from_serie("a//b") {
        Err(e) => assert_eq!(e.name, "a//b"),
        _ => panic!("an empty chunk is no key"),
    }
    assert!(keyexpr_from_serie("").is_err());
    assert!(keyexpr_from_serie("a/").is_err());
    assert!(KeyExpr::new("a/b*").is_err());
    assert!(KeyExpr::new("a/b").is_ok());
}

#[test]
fn double_wildcard_after_a_separator_needs_the_separator() {
    let m = matcher(&["a/**"]);
    assert!(!m.is_match("a"));
    assert!(m.is_match("a/"));
    let any = matcher(&["**"]);
    assert!(any.is_match("a"));
}

#[test]
fn several_expressions_match_their_union_and_nothing_else() {
    let m = matcher(&["a", "b/c"]);
    assert!(m.is_match("a"));
    assert!(m.is_match("b/c"));
    assert!(!m.is_match("ab"));
    assert!(!m.is_match("xb/c"));
    assert!(!m.is_match("a/c"));
    assert!(!m.is_match("xa"));
    assert!(!m.is_match("b/cx"));
    let wild = matcher(&["a/*", "b/**", "c"]);
    assert!(wild.is_match("a/x"));
    assert!(wild.is_match("b/x/y"));
    assert!(wild.is_match("c"));
    assert!(!wild.is_match("a/x/y"));
    assert!(!wild.is_match("xc"));
    assert!(!wild.is_match("cc"));
    assert!(!matcher(&[]).is_match("a"));
}
