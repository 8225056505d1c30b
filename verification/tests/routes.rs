use middle_monitor_sdk::glob::{matches_any, matches_route};

#[test]
fn matches_route_exact() {
    assert!(matches_route("/health", "/health"));
    assert!(!matches_route("/health", "/healthy"));
}

#[test]
fn matches_route_no_wildcard_no_match() {
    assert!(!matches_route("/api/users/123", "/api/users"));
}

#[test]
fn matches_route_wildcard_suffix() {
    assert!(matches_route("/api/users/123", "/api/users/*"));
    assert!(!matches_route("/api/items/123", "/api/users/*"));
}

#[test]
fn matches_route_wildcard_prefix_not_matches() {
    assert!(!matches_route("/api/users/123", "*/admin"));
}

#[test]
fn matches_route_wildcard_middle() {
    assert!(matches_route("/api/users/123/profile", "/api/*/profile"));
}

#[test]
fn star_stands_for_any_run() {
    assert!(matches_route("", "*"));
    assert!(matches_route("/a/b/c", "*"));
    assert!(matches_route("/a/b/c", "**"));
    assert!(matches_route("/a/", "/a/*"));
    assert!(matches_route("/a*b", "/a*b"));
    assert!(!matches_route("", "*a"));
    assert!(!matches_route("/a", ""));
    assert!(matches_route("", ""));
}

#[test]
fn parts_must_come_in_order_without_overlap() {
    assert!(matches_route("abcab", "ab*ab"));
    assert!(!matches_route("ab", "ab*ab"));
    assert!(!matches_route("aba", "ab*ba"));
    assert!(matches_route("xaybzc", "*a*b*c"));
    assert!(!matches_route("xbyazc", "*a*b*c"));
    assert!(matches_route("mississippi", "m*iss*ip*i"));
    assert!(!matches_route("mississippi", "m*iss*iss*iss*"));
}

#[test]
fn first_place_of_a_middle_part_suffices() {
    assert!(matches_route("aXbXc", "a*X*c"));
    assert!(matches_route("/v1/a/a/b", "/v1/*a/*b"));
}

#[test]
fn routes_may_hold_any_characters() {
    assert!(matches_route("/größe/ß", "/gr*ß"));
    assert!(matches_route("/日本/語", "/*/語"));
    assert!(!matches_route("/日本/語", "/日/*"));
}

#[test]
fn one_pattern_of_several_is_enough() {
    let patterns = vec!["/a".to_string(), "/b/*".to_string()];
    assert!(matches_any("/b/c", &patterns));
    assert!(matches_any("/a", &patterns));
    assert!(!matches_any("/c", &patterns));
    assert!(!matches_any("/a", &Vec::new()));
}
