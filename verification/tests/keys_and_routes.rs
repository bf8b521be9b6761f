use unified_gateway::keys::{
    make_connection_key, make_key_suffix, parse_connection_key, sanitize_identity,
    validate_identity,
};
use unified_gateway::routes::{match_route, resolve_route, template_route};
use unified_gateway::strutil::split_on;

#[test]
fn connection_key_round_trip() {
    let token = "aaaabbbbccccddddeeeeffff00001111".to_string();
    let identity = "acme corp:eu".to_string();
    let suffix = make_key_suffix(&token, &identity);
    assert_eq!(suffix, "aaaabbbbccccddddeeeeffff00001111|acme-corp-eu");
    let key = make_connection_key("development", "stripe", "default", &suffix);
    assert_eq!(
        key,
        "development::stripe::default::aaaabbbbccccddddeeeeffff00001111|acme-corp-eu"
    );
    let parsed = parse_connection_key(&key).expect("a built key parses");
    assert_eq!(parsed.0, "development");
    assert_eq!(parsed.1, "stripe");
    assert_eq!(parsed.2, "default");
    assert_eq!(parsed.3, suffix);
}

#[test]
fn suffix_is_token_when_identity_matches() {
    let token = "aaaabbbbccccddddeeeeffff00001111".to_string();
    let suffix = make_key_suffix(&token, &token);
    assert_eq!(suffix, token);
}

#[test]
fn sanitized_identity_has_no_spaces_or_colons() {
    let s = sanitize_identity("a b:c:d e");
    assert_eq!(s, "a-b-c-d-e");
    assert!(!s.contains(' '));
    assert!(!s.contains(':'));
}

#[test]
fn key_with_too_few_separators_does_not_parse() {
    assert!(parse_connection_key("development::stripe").is_none());
    assert!(parse_connection_key("plain").is_none());
}

#[test]
fn long_identity_is_rejected() {
    let long = Some("x".repeat(129));
    let err = validate_identity(&long).expect_err("over the limit");
    assert_eq!(err.status(), 400);
    let ok = Some("x".repeat(128));
    assert!(validate_identity(&ok).is_ok());
    assert!(validate_identity(&None).is_ok());
}

#[test]
fn most_specific_route_wins() {
    let candidates = vec!["/users/:id".to_string(), "/users/me".to_string()];
    let hit = match_route("/users/me", &candidates).expect("a match");
    assert_eq!(candidates[hit], "/users/me");
    let hit = match_route("/users/42", &candidates).expect("a match");
    assert_eq!(candidates[hit], "/users/:id");
    assert!(match_route("/teams/42", &candidates).is_none());
}

#[test]
fn template_route_fills_wildcards() {
    assert_eq!(template_route("/users/:id", "/users/42"), "/users/42");
    assert_eq!(
        template_route("/a/:x/c/:y", "/a/one/c/two"),
        "/a/one/c/two"
    );
    assert_eq!(template_route("/fixed/path", "/fixed/path"), "/fixed/path");
}

#[test]
fn ambiguous_candidates_are_refused() {
    let candidates = vec!["/users/:id".to_string(), "/users/:id".to_string()];
    let err = resolve_route(&candidates, "/users/42").expect_err("two owners of one route");
    assert_eq!(err.status(), 400);
    let unique = vec!["/users/:id".to_string(), "/teams/:id".to_string()];
    let hit = resolve_route(&unique, "/teams/7")
        .expect("resolves")
        .expect("a match");
    assert_eq!(hit, 1);
    assert!(resolve_route(&unique, "/nothing").expect("resolves").is_none());
}

#[test]
fn split_keeps_empty_segments() {
    let segs = split_on("/a//b", '/');
    assert_eq!(segs, vec!["".to_string(), "a".to_string(), "".to_string(), "b".to_string()]);
}
