use unified_gateway::client::build_outbound_request;
use unified_gateway::config::Environment;
use unified_gateway::connection::{
    build_connection_record, check_access, check_auth_rotation, evaluate_test_connection,
    handle_test_connection_failure, plan_provisioning, require_connection_definition,
    CreateConnectionPayload, ProvisionPlan,
};
use unified_gateway::crud::insert_action_id;
use unified_gateway::dispatch::{fingerprint, make_transaction_key, render_config, UnifiedMetadata};
use unified_gateway::json::JsonValue;
use unified_gateway::model::{ApiModelConfig, AuthMethod, ConnectionType, CrudAction, HttpMethod};
use unified_gateway::response::{
    accept_upstream_body, build_unified_response, extract_pagination, finalize_element,
    plan_body_mapping, respond_upstream_failure, transform_response_with_path, BodyMapping,
};

fn obj(fields: Vec<(&str, JsonValue)>) -> JsonValue {
    JsonValue::Obj(
        fields
            .into_iter()
            .map(|(k, v)| (k.to_string(), v))
            .collect(),
    )
}

fn s(text: &str) -> JsonValue {
    JsonValue::Str(text.to_string())
}

fn get<'a>(v: &'a JsonValue, key: &str) -> Option<&'a JsonValue> {
    match v {
        JsonValue::Obj(fields) => fields.iter().find(|(k, _)| k == key).map(|(_, x)| x),
        _ => None,
    }
}

fn upstream_list_body() -> JsonValue {
    obj(vec![
        (
            "data",
            JsonValue::Arr(vec![obj(vec![("id", s("a"))]), obj(vec![("id", s("b"))])]),
        ),
        ("next_cursor", s("x")),
    ])
}

#[test]
fn body_is_extracted_at_the_response_path() {
    let path = "$.body.data".to_string();
    let extracted = transform_response_with_path(
        Some(&path),
        Some(upstream_list_body()),
        false,
        CrudAction::GetMany,
    )
    .expect("extraction succeeds")
    .expect("the path hits");
    assert_eq!(
        extracted,
        JsonValue::Arr(vec![obj(vec![("id", s("a"))]), obj(vec![("id", s("b"))])])
    );
}

#[test]
fn missing_node_is_unprocessable_outside_production() {
    let path = "$.body.data".to_string();
    let err = transform_response_with_path(
        Some(&path),
        Some(obj(vec![("other", s("y"))])),
        false,
        CrudAction::GetMany,
    )
    .expect_err("strict reads refuse an empty selection");
    assert_eq!(err.status(), 422);
    let lax = transform_response_with_path(
        Some(&path),
        Some(obj(vec![("other", s("y"))])),
        true,
        CrudAction::GetMany,
    )
    .expect("production is lenient");
    assert_eq!(lax, None);
}

#[test]
fn cursor_is_mined_or_null() {
    let path = "$.body.next_cursor".to_string();
    let cursor = extract_pagination(Some(&path), Some(upstream_list_body()))
        .expect("mining succeeds")
        .expect("a cursor value");
    assert_eq!(cursor, s("x"));
    let missing = extract_pagination(Some(&path), Some(obj(vec![])))
        .expect("mining succeeds")
        .expect("a value");
    assert_eq!(missing, JsonValue::Null);
    assert_eq!(extract_pagination(None, Some(obj(vec![]))).unwrap(), None);
}

#[test]
fn elements_gain_a_modify_token() {
    let mapped = finalize_element(obj(vec![("id", s("cus_1")), ("email", s("a@b"))]));
    assert_eq!(get(&mapped, "modifyToken"), Some(&s("cus_1")));
    let kept = finalize_element(obj(vec![("id", s("x")), ("modifyToken", s("mine"))]));
    assert_eq!(get(&kept, "modifyToken"), Some(&s("mine")));
    let without_id = finalize_element(obj(vec![("email", s("a@b"))]));
    assert_eq!(get(&without_id, "modifyToken"), Some(&s("")));
    let with_null = finalize_element(obj(vec![("id", s("x")), ("gone", JsonValue::Null)]));
    assert_eq!(get(&with_null, "gone"), None);
    assert_eq!(finalize_element(s("scalar")), s("scalar"));
}

#[test]
fn mapping_plans_follow_the_action() {
    let arr = JsonValue::Arr(vec![s("one")]);
    match plan_body_mapping(CrudAction::GetMany, true, Some(arr), "Customer", "stripe", "id1") {
        Ok(BodyMapping::Elements(items)) => assert_eq!(items, vec![s("one")]),
        other => panic!("expected elements, got {:?}", other),
    }
    assert_eq!(
        plan_body_mapping(CrudAction::GetMany, true, None, "Customer", "stripe", "id1").unwrap(),
        BodyMapping::EmptyArray
    );
    assert_eq!(
        plan_body_mapping(CrudAction::GetMany, true, Some(s("solo")), "Customer", "stripe", "id1")
            .unwrap(),
        BodyMapping::Elements(vec![s("solo")])
    );
    assert_eq!(
        plan_body_mapping(CrudAction::Update, true, Some(s("ignored")), "Customer", "stripe", "id1")
            .unwrap(),
        BodyMapping::Dropped
    );
    assert_eq!(
        plan_body_mapping(CrudAction::GetCount, false, Some(s("7")), "Customer", "stripe", "id1")
            .unwrap(),
        BodyMapping::Unmapped(Some(s("7")))
    );
    let err = plan_body_mapping(CrudAction::GetOne, false, None, "Customer", "stripe", "id1")
        .expect_err("a mapped action needs its script");
    assert_eq!(err.status(), 400);
}

fn sample_meta() -> UnifiedMetadata {
    UnifiedMetadata {
        timestamp: 1700000000000,
        transaction_key: make_transaction_key(1700000000000),
        platform: "stripe".to_string(),
        platform_version: "2023-08-16".to_string(),
        connection_key: "development::stripe::default::t".to_string(),
        common_model: "Customer".to_string(),
        common_model_version: "v1".to_string(),
        action: "getMany".to_string(),
        host: None,
        hash: "0".repeat(16),
        latency: 12,
        platform_rate_limit_remaining: 0,
        rate_limit_remaining: 0,
    }
}

#[test]
fn paginated_envelope_carries_everything() {
    let unified = JsonValue::Arr(vec![
        finalize_element(obj(vec![("id", s("a"))])),
        finalize_element(obj(vec![("id", s("b"))])),
    ]);
    let pagination = obj(vec![("nextCursor", s("x"))]);
    let out = build_unified_response(
        CrudAction::GetMany,
        Some(unified),
        Some(pagination),
        None,
        Some("50".to_string()),
        sample_meta().as_json_value(),
        false,
        200,
        "Get Customers",
        vec![("x-ratelimit-remaining".to_string(), "99".to_string())],
    );
    assert_eq!(out.status, 200);
    assert_eq!(
        out.headers,
        vec![
            ("x-integrationos-statuscode".to_string(), "200".to_string()),
            ("x-ratelimit-remaining".to_string(), "99".to_string()),
        ]
    );
    let unified = get(&out.body, "unified").expect("a unified body");
    assert_eq!(
        *unified,
        JsonValue::Arr(vec![
            obj(vec![("id", s("a")), ("modifyToken", s("a"))]),
            obj(vec![("id", s("b")), ("modifyToken", s("b"))]),
        ])
    );
    let pagination = get(&out.body, "pagination").expect("pagination");
    assert_eq!(get(pagination, "nextCursor"), Some(&s("x")));
    assert_eq!(get(pagination, "limit"), Some(&JsonValue::Num(50)));
    assert_eq!(get(pagination, "pageSize"), Some(&JsonValue::Num(2)));
    let meta = get(&out.body, "meta").expect("meta");
    assert_eq!(get(meta, "commonModelVersion"), Some(&s("v1")));
    assert_eq!(get(meta, "action"), Some(&s("getMany")));
    assert_eq!(get(&out.body, "passthrough"), None);
}

#[test]
fn passthrough_appears_only_when_requested() {
    let with = build_unified_response(
        CrudAction::GetOne,
        Some(obj(vec![("id", s("a"))])),
        None,
        Some(s("raw")),
        None,
        sample_meta().as_json_value(),
        true,
        200,
        "Get Customer",
        vec![],
    );
    assert_eq!(get(&with.body, "passthrough"), Some(&s("raw")));
    assert_eq!(
        with.headers,
        vec![
            ("x-pica-action".to_string(), "Get Customer".to_string()),
            ("x-integrationos-statuscode".to_string(), "200".to_string()),
        ]
    );
    let without = build_unified_response(
        CrudAction::GetOne,
        Some(obj(vec![("id", s("a"))])),
        None,
        Some(s("raw")),
        None,
        sample_meta().as_json_value(),
        false,
        200,
        "Get Customer",
        vec![],
    );
    assert_eq!(get(&without.body, "passthrough"), None);
    assert_eq!(
        without.headers,
        vec![("x-integrationos-statuscode".to_string(), "200".to_string())]
    );
}

#[test]
fn dropped_bodies_leave_no_unified_field() {
    let out = build_unified_response(
        CrudAction::Delete,
        None,
        None,
        None,
        None,
        sample_meta().as_json_value(),
        false,
        204,
        "Delete Customer",
        vec![],
    );
    assert_eq!(get(&out.body, "unified"), None);
    assert!(get(&out.body, "meta").is_some());
}

#[test]
fn count_bodies_are_wrapped() {
    let out = build_unified_response(
        CrudAction::GetCount,
        Some(JsonValue::Num(41)),
        None,
        None,
        None,
        sample_meta().as_json_value(),
        false,
        200,
        "Count Customers",
        vec![],
    );
    let unified = get(&out.body, "unified").expect("a unified body");
    assert_eq!(get(unified, "count"), Some(&JsonValue::Num(41)));
}

#[test]
fn upstream_failures_pass_through_verbatim() {
    let upstream = vec![("retry-after".to_string(), "30".to_string())];
    let out = respond_upstream_failure(Some(s("Not found")), 404, upstream.clone());
    assert_eq!(out.status, 404);
    assert_eq!(out.body, s("Not found"));
    assert_eq!(out.headers, upstream);
    assert!(!out
        .headers
        .iter()
        .any(|(k, _)| k == "x-integrationos-statuscode"));
}

#[test]
fn unparseable_success_bodies_are_internal_failures() {
    let ok = accept_upstream_body(200, Some(s("fine")), None).expect("an intact body passes");
    assert_eq!(ok, Some(s("fine")));
    let err = accept_upstream_body(200, None, Some("expected value at line 1"))
        .expect_err("a claimed success that cannot be read");
    assert_eq!(err.status(), 500);
    assert!(err.is_internal());
    let client_err = accept_upstream_body(404, None, Some("empty body"))
        .expect_err("a failure that cannot be read");
    assert_eq!(client_err.status(), 404);
}

#[test]
fn transaction_keys_have_the_documented_shape() {
    let key = make_transaction_key(1700000000000);
    assert!(key.starts_with("txn_"));
    assert!(key.len() > 4);
    assert!(key[4..].chars().all(|c| c.is_ascii_alphanumeric()));
}

#[test]
fn fingerprints_depend_only_on_the_inputs() {
    let a = fingerprint(Some(&s("body")), "getOne", "Customer");
    let b = fingerprint(Some(&s("body")), "getOne", "Customer");
    let c = fingerprint(Some(&s("other")), "getOne", "Customer");
    assert_eq!(a, b);
    assert_ne!(a, c);
    assert_eq!(a.len(), 16);
}

#[test]
fn sql_connections_provision_a_side_car() {
    let plan = plan_provisioning(
        ConnectionType::DatabaseSql,
        "conn::AAA_1",
        "development",
        "postgres",
        "pica-database",
        vec![("CONNECTION_ID".to_string(), "conn::AAA_1".to_string())],
        vec![("POSTGRES_PASSWORD".to_string(), "SECRET-REDACTED".to_string())],
        "jwt-secret",
        "JWT_SECRET",
    );
    match plan {
        ProvisionPlan::Database(secret, service, deployment) => {
            assert_eq!(service.name, "db-conn--AAA-1");
            assert_eq!(secret.service_name, service.name);
            assert_eq!(secret.connection_id, "conn::AAA_1");
            assert_eq!(service.service_type, "ClusterIP");
            assert_eq!(service.port, 80);
            assert_eq!(service.target_port, 5005);
            assert_eq!(deployment.container_port, 5005);
            assert_eq!(deployment.replicas, 1);
            assert_eq!(deployment.jwt_secret_ref_name, "jwt-secret");
            assert_eq!(deployment.jwt_secret_ref_key, "JWT_SECRET");
            assert!(deployment
                .env
                .contains(&("CONNECTION_ID".to_string(), "conn::AAA_1".to_string())));
        }
        ProvisionPlan::Plain => panic!("a SQL definition must provision"),
    }
    let api = plan_provisioning(
        ConnectionType::Api,
        "conn::AAA_1",
        "development",
        "stripe",
        "pica-database",
        vec![],
        vec![],
        "jwt-secret",
        "JWT_SECRET",
    );
    assert_eq!(api, ProvisionPlan::Plain);
}

#[test]
fn new_connections_get_a_well_formed_key() {
    let payload = CreateConnectionPayload {
        connection_definition_id: "def_1".to_string(),
        auth_form_data: vec![],
        active: true,
        identity: Some("acme corp".to_string()),
        identity_type: None,
        group: None,
        name: None,
    };
    let conn = build_connection_record(
        "conn_1".to_string(),
        "aaaabbbbccccddddeeeeffff00001111".to_string(),
        payload,
        "stripe".to_string(),
        "2023-08-16".to_string(),
        ConnectionType::Api,
        Environment::Development,
        "secret_1".to_string(),
        "owner_1".to_string(),
        500,
        JsonValue::Null,
    );
    assert_eq!(
        conn.key,
        "development::stripe::default::aaaabbbbccccddddeeeeffff00001111|acme-corp"
    );
    assert_eq!(conn.throughput.key, conn.key);
    assert_eq!(conn.secrets_service_id, "secret_1");
    assert!(check_access(&conn, "owner_1", Environment::Development).is_ok());
    assert!(check_access(&conn, "owner_2", Environment::Development).is_err());
    assert!(check_auth_rotation(ConnectionType::Api).is_ok());
    let err = check_auth_rotation(ConnectionType::DatabaseSql).expect_err("SQL refuses rotation");
    assert_eq!(err.status(), 400);
}

#[test]
fn unified_get_one_happy_path() {
    let secret = obj(vec![
        ("access_token", s("sk_test_abc")),
        ("token_type", s("Bearer")),
    ]);
    let secret = insert_action_id(secret, Some("cus_1"));
    let config = ApiModelConfig {
        base_url: "https://api.stripe.com".to_string(),
        path: "customers/{{id}}".to_string(),
        auth_method: AuthMethod::OAuth,
        headers: vec![],
        query_params: vec![],
        paths: None,
    };
    let config = render_config(config, &secret);
    let request = build_outbound_request(
        config,
        HttpMethod::Get,
        None,
        Some(&secret),
        vec![],
        vec![],
        None,
    )
    .expect("assembles");
    assert_eq!(request.url, "https://api.stripe.com/customers/cus_1");
    assert!(request
        .headers
        .contains(&("authorization".to_string(), "Bearer sk_test_abc".to_string())));

    let upstream = obj(vec![("id", s("cus_1")), ("email", s("a@b"))]);
    let extracted = transform_response_with_path(None, Some(upstream), false, CrudAction::GetOne)
        .expect("no path passes the body through")
        .expect("a body");
    let mapped = match plan_body_mapping(
        CrudAction::GetOne,
        true,
        Some(extracted),
        "Customer",
        "stripe",
        "cmd_1",
    )
    .expect("a plan")
    {
        BodyMapping::Single(one) => finalize_element(one),
        other => panic!("a singleton read maps one object, got {:?}", other),
    };
    let mut meta = sample_meta();
    meta.action = "getOne".to_string();
    let out = build_unified_response(
        CrudAction::GetOne,
        Some(mapped),
        None,
        None,
        None,
        meta.as_json_value(),
        false,
        200,
        "Get Customer",
        vec![],
    );
    assert_eq!(out.status, 200);
    assert_eq!(
        out.headers,
        vec![("x-integrationos-statuscode".to_string(), "200".to_string())]
    );
    let unified = get(&out.body, "unified").expect("a unified body");
    assert_eq!(
        *unified,
        obj(vec![
            ("id", s("cus_1")),
            ("email", s("a@b")),
            ("modifyToken", s("cus_1")),
        ])
    );
    let meta = get(&out.body, "meta").expect("meta");
    assert_eq!(get(meta, "action"), Some(&s("getOne")));
    assert_eq!(get(meta, "commonModel"), Some(&s("Customer")));
    match get(meta, "transactionKey") {
        Some(JsonValue::Str(key)) => {
            assert!(key.starts_with("txn_"));
            assert!(key[4..].chars().all(|c| c.is_ascii_alphanumeric()));
        }
        other => panic!("expected a transaction key, got {:?}", other),
    }
    match get(meta, "latency") {
        Some(JsonValue::Num(n)) => assert!(*n >= 0),
        other => panic!("expected a latency, got {:?}", other),
    }
}


#[test]
fn missing_definition_is_named_in_the_error() {
    let found: Result<Option<u64>, unified_gateway::error::PicaError> = Ok(None);
    let err = require_connection_definition(found, "def_9").expect_err("nothing found");
    assert_eq!(err.status(), 404);
    assert_eq!(
        err.message().to_string(),
        "Connection definition with id def_9 not found"
    );
    let found: Result<Option<u64>, unified_gateway::error::PicaError> = Ok(Some(7));
    assert_eq!(require_connection_definition(found, "def_9").unwrap(), 7);
}

#[test]
fn failed_tests_roll_back_what_was_provisioned() {
    assert!(evaluate_test_connection(false, false, None).is_ok());
    assert!(evaluate_test_connection(true, true, Some(204)).is_ok());
    let missing = evaluate_test_connection(true, false, None).expect_err("no probe definition");
    assert_eq!(missing.status(), 404);
    let failed = evaluate_test_connection(true, true, Some(401)).expect_err("probe refused");
    assert_eq!(
        failed.message().to_string(),
        "Test connections failed: 401"
    );
    let (teardown, err) = handle_test_connection_failure(true, "401");
    assert!(teardown);
    assert_eq!(err.status(), 400);
    assert_eq!(
        err.message().to_string(),
        "Invalid connection credentials: 401"
    );
    let (teardown, _) = handle_test_connection_failure(false, "401");
    assert!(!teardown);
}
