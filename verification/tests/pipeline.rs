use unified_gateway::cache::TtlCache;
use unified_gateway::crud::{
    extend_secret, insert_action_id, parse_kv, prepare_crud_mapping, RequestCrud,
};
use unified_gateway::dispatch::{classify_test_delay, generate_script_namespace};
use unified_gateway::config::Headers;
use unified_gateway::error::PicaError;
use unified_gateway::json::JsonValue;

fn sample_request() -> RequestCrud {
    RequestCrud::new(
        vec![
            ("x-pica-passthrough-headers".to_string(), "a=1;b=2".to_string()),
            ("accept".to_string(), "application/json".to_string()),
        ],
        vec![
            ("passthroughForward".to_string(), "p=q&r=s".to_string()),
            ("limit".to_string(), "50".to_string()),
        ],
        None,
    )
}

#[test]
fn forwarded_values_become_plain_pairs() {
    let prepared = prepare_crud_mapping(sample_request(), Some("cus_1"));
    assert_eq!(prepared.get_query_param("passthroughForward"), None);
    assert_eq!(prepared.get_query_param("p"), Some("q".to_string()));
    assert_eq!(prepared.get_query_param("r"), Some("s".to_string()));
    assert_eq!(prepared.get_query_param("limit"), Some("50".to_string()));
    assert_eq!(prepared.get_header("x-pica-passthrough-headers"), None);
    assert_eq!(prepared.get_header("a"), Some("1".to_string()));
    assert_eq!(prepared.get_header("b"), Some("2".to_string()));
    assert!(prepared
        .path_params
        .contains(&("id".to_string(), "cus_1".to_string())));
}

#[test]
fn preparing_twice_changes_nothing_more() {
    let once = prepare_crud_mapping(sample_request(), Some("cus_1"));
    let again = prepare_crud_mapping(sample_request(), Some("cus_1"));
    let twice = prepare_crud_mapping(again, Some("cus_1"));
    assert_eq!(once, twice);
}

#[test]
fn kv_parsing_drops_broken_pairs() {
    let pairs = parse_kv("a=1&broken&b=2", '&');
    assert_eq!(
        pairs,
        vec![
            ("a".to_string(), "1".to_string()),
            ("b".to_string(), "2".to_string())
        ]
    );
}

#[test]
fn cached_producer_runs_once_per_window() {
    let mut cache: TtlCache<JsonValue> = TtlCache::new(10, 300);
    let first: Result<JsonValue, PicaError> =
        cache.get_or_insert_with("k", 100, || Ok(JsonValue::Str("v1".to_string())));
    assert_eq!(first.unwrap(), JsonValue::Str("v1".to_string()));
    let second: Result<JsonValue, PicaError> =
        cache.get_or_insert_with("k", 200, || Ok(JsonValue::Str("v2".to_string())));
    assert_eq!(second.unwrap(), JsonValue::Str("v1".to_string()));
    let after_expiry: Result<JsonValue, PicaError> =
        cache.get_or_insert_with("k", 401, || Ok(JsonValue::Str("v3".to_string())));
    assert_eq!(after_expiry.unwrap(), JsonValue::Str("v3".to_string()));
}

#[test]
fn zero_capacity_keeps_nothing() {
    let mut cache: TtlCache<JsonValue> = TtlCache::new(0, 300);
    cache.insert("k".to_string(), JsonValue::Bool(true), 0);
    assert!(cache.get("k", 1).is_none());
}

#[test]
fn entries_expire_individually() {
    let mut cache: TtlCache<JsonValue> = TtlCache::new(10, 10);
    cache.insert("old".to_string(), JsonValue::Num(1), 0);
    cache.insert("new".to_string(), JsonValue::Num(2), 5);
    assert!(cache.get("old", 9).is_some());
    assert!(cache.get("old", 10).is_none());
    assert!(cache.get("new", 10).is_some());
    cache.remove("new");
    assert!(cache.get("new", 10).is_none());
}

#[test]
fn missing_store_record_is_not_found() {
    let mut cache: TtlCache<JsonValue> = TtlCache::new(10, 300);
    let r: Result<JsonValue, PicaError> =
        cache.get_or_insert_with_filter("k", 0, || Ok(None));
    let err = r.expect_err("a store miss is an error");
    assert_eq!(err.status(), 404);
    assert_eq!(err.message().to_string(), "Value not found");
}

#[test]
fn namespaces_follow_the_cache_capacity() {
    let stable = generate_script_namespace(100, "conn_mod_def::AAA-BBB:1");
    assert_eq!(stable, "conn_mod_def__AAA_BBB_1");
    let fresh_a = generate_script_namespace(0, "conn_mod_def::AAA-BBB:1");
    let fresh_b = generate_script_namespace(0, "conn_mod_def::AAA-BBB:1");
    assert_eq!(fresh_a.len(), 33);
    assert!(fresh_a.starts_with('$'));
    assert_ne!(fresh_a, fresh_b);
}

#[test]
fn probe_delay_rule() {
    assert_eq!(classify_test_delay(None).unwrap(), None);
    assert_eq!(classify_test_delay(Some(-5)).unwrap(), None);
    assert_eq!(classify_test_delay(Some(0)).unwrap(), Some(0));
    assert_eq!(classify_test_delay(Some(65535)).unwrap(), Some(65535));
    let err = classify_test_delay(Some(65536)).expect_err("too large");
    assert_eq!(err.status(), 400);
}

#[test]
fn action_id_and_path_params_reach_the_secret() {
    let secret = JsonValue::Obj(vec![(
        "access_token".to_string(),
        JsonValue::Str("sk".to_string()),
    )]);
    let with_id = insert_action_id(secret, Some("cus_1"));
    let extended = extend_secret(
        with_id,
        &vec![("region".to_string(), "eu".to_string())],
    );
    match extended {
        JsonValue::Obj(fields) => {
            assert!(fields.contains(&("id".to_string(), JsonValue::Str("cus_1".to_string()))));
            assert!(fields.contains(&("region".to_string(), JsonValue::Str("eu".to_string()))));
            assert!(fields.contains(&(
                "access_token".to_string(),
                JsonValue::Str("sk".to_string())
            )));
        }
        other => panic!("expected an object, got {:?}", other),
    }
}


#[test]
fn bare_headers_start_empty() {
    let bare = Headers::new();
    assert_eq!(bare, Headers::default());
    assert_eq!(bare.auth_header, "");
    assert_eq!(bare.connection_header, "");
    let named = Headers::default_names();
    assert_eq!(named.auth_header, "x-pica-secret");
    assert_eq!(named.connection_header, "x-pica-connection-key");
    assert_eq!(named.enable_passthrough_header, "x-pica-enable-passthrough");
}
