use unified_gateway::client::{
    base64_encode, basic_auth_header, build_outbound_request, join_endpoint, merge_headers,
    oauth1_base_string, oauth1_signature, oauth1_signing_key, percent_encode, sort_strings,
    OAuthParams,
};
use unified_gateway::model::HashAlgorithm as Alg;
use unified_gateway::dispatch::render_config;
use unified_gateway::json::JsonValue;
use unified_gateway::model::{ApiModelConfig, AuthMethod, HashAlgorithm, HttpMethod, ModelPaths};

fn bare_config(base_url: &str, path: &str, auth_method: AuthMethod) -> ApiModelConfig {
    ApiModelConfig {
        base_url: base_url.to_string(),
        path: path.to_string(),
        auth_method,
        headers: vec![],
        query_params: vec![],
        paths: None,
    }
}

#[test]
fn endpoint_gets_exactly_one_slash() {
    assert_eq!(
        join_endpoint("http://x/api", "customers/cus_OT8j94jEraNXbW"),
        "http://x/api/customers/cus_OT8j94jEraNXbW"
    );
    assert_eq!(join_endpoint("http://x/api/", "v1"), "http://x/api/v1");
    assert_eq!(join_endpoint("http://x/api", "/v1"), "http://x/api/v1");
}

#[test]
fn hop_by_hop_headers_are_dropped() {
    let caller = vec![
        ("Content-Length".to_string(), "10".to_string()),
        ("Accept-Encoding".to_string(), "gzip".to_string()),
        ("Host".to_string(), "me".to_string()),
        ("Accept".to_string(), "application/json".to_string()),
    ];
    let model = vec![("X-Api-Version".to_string(), "2".to_string())];
    let merged = merge_headers(caller, model);
    assert_eq!(
        merged,
        vec![
            ("accept".to_string(), "application/json".to_string()),
            ("x-api-version".to_string(), "2".to_string())
        ]
    );
}

#[test]
fn base64_matches_known_values() {
    assert_eq!(base64_encode(&b"user:pass".to_vec()), "dXNlcjpwYXNz");
    assert_eq!(base64_encode(&b"a".to_vec()), "YQ==");
    assert_eq!(base64_encode(&b"ab".to_vec()), "YWI=");
    assert_eq!(base64_encode(&vec![]), "");
    assert_eq!(basic_auth_header("user", "pass"), "Basic dXNlcjpwYXNz");
}

#[test]
fn bearer_token_is_applied() {
    let config = bare_config(
        "http://x/api",
        "customers/cus_1",
        AuthMethod::BearerToken {
            value: "sample-key".to_string(),
        },
    );
    let out = build_outbound_request(config, HttpMethod::Get, None, None, vec![], vec![], None)
        .expect("assembles");
    assert_eq!(out.url, "http://x/api/customers/cus_1");
    assert!(out
        .headers
        .contains(&("authorization".to_string(), "Bearer sample-key".to_string())));
}

#[test]
fn oauth_secret_reaches_the_header() {
    let secret = JsonValue::Obj(vec![
        (
            "access_token".to_string(),
            JsonValue::Str("sk_test_abc".to_string()),
        ),
        (
            "token_type".to_string(),
            JsonValue::Str("Bearer".to_string()),
        ),
    ]);
    let config = bare_config("http://x", "customers/cus_1", AuthMethod::OAuth);
    let out = build_outbound_request(
        config,
        HttpMethod::Get,
        None,
        Some(&secret),
        vec![],
        vec![],
        None,
    )
    .expect("assembles");
    assert!(out
        .headers
        .contains(&("authorization".to_string(), "Bearer sk_test_abc".to_string())));

    let broken = JsonValue::Obj(vec![]);
    let config = bare_config("http://x", "p", AuthMethod::OAuth);
    let err = build_outbound_request(
        config,
        HttpMethod::Get,
        None,
        Some(&broken),
        vec![],
        vec![],
        None,
    )
    .expect_err("no access token");
    assert_eq!(err.status(), 400);
    assert_eq!(
        err.key().to_string(),
        "err::internal::invalid_argument::oauth_secret"
    );
}

#[test]
fn signing_base_string_is_canonical() {
    let base = oauth1_base_string(
        HttpMethod::Get,
        "https://api.example.com/v1/accounts",
        &vec![("foo".to_string(), "bar".to_string())],
    );
    assert_eq!(
        base,
        "GET&https%3A%2F%2Fapi.example.com%2Fv1%2Faccounts&foo%3Dbar"
    );
    let sorted = sort_strings(vec!["b=2".to_string(), "a=1".to_string(), "a=0".to_string()]);
    assert_eq!(
        sorted,
        vec!["a=0".to_string(), "a=1".to_string(), "b=2".to_string()]
    );
    assert_eq!(percent_encode("a b~"), "a%20b~");
    assert_eq!(oauth1_signing_key("c s", "t"), "c%20s&t");
}

#[test]
fn legacy_signing_fills_the_authorization_header() {
    let secret = JsonValue::Obj(vec![
        ("consumer_key".to_string(), JsonValue::Str("ck".to_string())),
        (
            "consumer_secret".to_string(),
            JsonValue::Str("cs".to_string()),
        ),
        (
            "access_token_id".to_string(),
            JsonValue::Str("at".to_string()),
        ),
        (
            "access_token_secret".to_string(),
            JsonValue::Str("ats".to_string()),
        ),
    ]);
    let config = bare_config(
        "https://api.example.com",
        "v1/accounts",
        AuthMethod::OAuthLegacy {
            hash_algorithm: HashAlgorithm::HmacSha1,
            realm: None,
        },
    );
    let oauth = OAuthParams {
        nonce: "n0nce".to_string(),
        timestamp: 1700000000,
    };
    let out = build_outbound_request(
        config,
        HttpMethod::Get,
        None,
        Some(&secret),
        vec![],
        vec![("foo".to_string(), "bar".to_string())],
        Some(&oauth),
    )
    .expect("assembles");
    let auth = out
        .headers
        .iter()
        .find(|(k, _)| k == "authorization")
        .map(|(_, v)| v.clone())
        .expect("an authorization header");
    assert!(auth.starts_with("OAuth "));
    assert!(auth.contains("oauth_consumer_key=\"ck\""));
    assert!(auth.contains("oauth_token=\"at\""));
    assert!(auth.contains("oauth_signature_method=\"HMAC-SHA1\""));
    assert!(auth.contains("oauth_nonce=\"n0nce\""));
    assert!(auth.contains("oauth_timestamp=\"1700000000\""));

    let base = oauth1_base_string(
        HttpMethod::Get,
        "https://api.example.com/v1/accounts",
        &vec![("foo".to_string(), "bar".to_string())],
    );
    let mut mac = <hmac::SimpleHmac<sha1::Sha1> as hmac::KeyInit>::new_from_slice(b"cs&ats")
        .expect("any key length works");
    hmac::Mac::update(&mut mac, base.as_bytes());
    let digest = hmac::Mac::finalize(mac).into_bytes().to_vec();
    let expected = percent_encode(&base64_encode(&digest));
    assert!(auth.contains(&format!("oauth_signature=\"{expected}\"")));
    assert_eq!(
        oauth1_signature(Alg::HmacSha1, "cs&ats", &base),
        base64_encode(&digest)
    );
}

#[test]
fn plaintext_signature_is_the_signing_key() {
    let secret = JsonValue::Obj(vec![
        ("consumer_key".to_string(), JsonValue::Str("ck".to_string())),
        (
            "consumer_secret".to_string(),
            JsonValue::Str("cs".to_string()),
        ),
        (
            "access_token_id".to_string(),
            JsonValue::Str("at".to_string()),
        ),
        (
            "access_token_secret".to_string(),
            JsonValue::Str("ats".to_string()),
        ),
    ]);
    let config = bare_config(
        "https://api.example.com",
        "v1/accounts",
        AuthMethod::OAuthLegacy {
            hash_algorithm: HashAlgorithm::PlainText,
            realm: Some("shop".to_string()),
        },
    );
    let oauth = OAuthParams {
        nonce: "n".to_string(),
        timestamp: 7,
    };
    let out = build_outbound_request(
        config,
        HttpMethod::Get,
        None,
        Some(&secret),
        vec![],
        vec![],
        Some(&oauth),
    )
    .expect("plaintext needs no digest");
    let auth = out
        .headers
        .iter()
        .find(|(k, _)| k == "authorization")
        .map(|(_, v)| v.clone())
        .expect("an authorization header");
    assert!(auth.contains("realm=\"shop\""));
    assert!(auth.contains("oauth_signature=\"cs%26ats\""));
}

#[test]
fn templates_bake_the_secret_into_the_path() {
    let config = bare_config(
        "https://api.stripe.com",
        "customers/{{id}}",
        AuthMethod::Anonymous,
    );
    let secret = JsonValue::Obj(vec![(
        "id".to_string(),
        JsonValue::Str("cus_1".to_string()),
    )]);
    let rendered = render_config(config, &secret);
    assert_eq!(rendered.path, "customers/cus_1");
    assert_eq!(rendered.base_url, "https://api.stripe.com");

    let config = ApiModelConfig {
        base_url: "https://x".to_string(),
        path: "v1".to_string(),
        auth_method: AuthMethod::Anonymous,
        headers: vec![("x-account".to_string(), "{{account}}".to_string())],
        query_params: vec![("missing".to_string(), "{{nope}}".to_string())],
        paths: Some(ModelPaths {
            request_object: None,
            response_object: None,
            response_cursor: None,
        }),
    };
    let secret = JsonValue::Obj(vec![(
        "account".to_string(),
        JsonValue::Str("acct_9".to_string()),
    )]);
    let rendered = render_config(config, &secret);
    assert_eq!(
        rendered.headers,
        vec![("x-account".to_string(), "acct_9".to_string())]
    );
    assert_eq!(
        rendered.query_params,
        vec![("missing".to_string(), "".to_string())]
    );
}
