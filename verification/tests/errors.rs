use unified_gateway::error::{
    ApplicationError, ErrorCode, ErrorKey, ErrorMessage, InternalError, PicaError,
};
use unified_gateway::json::JsonValue;
use unified_gateway::store::{from_store_error, StoreErrorKind};

#[test]
fn test_error_code() {
    let code = ErrorCode(400);
    assert_eq!(code.to_string(), "400");
}

#[test]
fn test_error_key() {
    let key = ErrorKey::internal("test", None);
    assert_eq!(key.to_string(), "err::internal::test");
}

#[test]
fn test_error_message() {
    let message = ErrorMessage("test".to_string());
    assert_eq!(message.to_string(), "test");
}

#[test]
fn test_new_function() {
    let internal_error: PicaError = InternalError::unknown("test", None);

    assert_eq!(internal_error.code(), ErrorCode(1000));
    assert_eq!(internal_error.key(), ErrorKey::internal("unknown", None));
    assert_eq!(internal_error.message(), ErrorMessage("test".to_string()));
}

#[test]
fn from_internal_error_to_application_error() {
    let internal_error = InternalError::UniqueFieldViolation {
        message: "test".to_string(),
        subtype: None,
        meta: None,
    };
    let app_error: ApplicationError = internal_error.into();

    assert_eq!(
        app_error,
        ApplicationError::Conflict {
            message: "test".to_string(),
            subtype: None,
            meta: None
        }
    );
}

#[test]
fn status_mapping_is_fixed() {
    assert_eq!(InternalError::unique_field_violation("d", None).status(), 409);
    assert_eq!(InternalError::timeout("d", None).status(), 504);
    assert_eq!(InternalError::connection_error("d", None).status(), 502);
    assert_eq!(InternalError::key_not_found("d", None).status(), 404);
    assert_eq!(InternalError::invalid_argument("d", None).status(), 400);
    assert_eq!(InternalError::serialize_error("d", None).status(), 400);
    assert_eq!(InternalError::deserialize_error("d", None).status(), 400);
    assert_eq!(InternalError::unknown("d", None).status(), 500);
    assert_eq!(InternalError::io_err("d", None).status(), 500);
    assert_eq!(InternalError::script_error("d", None).status(), 500);
    assert_eq!(ApplicationError::bad_request("d", None).status(), 400);
    assert_eq!(ApplicationError::conflict("d", None).status(), 409);
    assert_eq!(ApplicationError::forbidden("d", None).status(), 403);
    assert_eq!(ApplicationError::internal_server_error("d", None).status(), 500);
    assert_eq!(ApplicationError::method_not_allowed("d", None).status(), 405);
    assert_eq!(ApplicationError::not_found("d", None).status(), 404);
    assert_eq!(ApplicationError::not_implemented("d", None).status(), 501);
    assert_eq!(ApplicationError::failed_dependency("d", None).status(), 424);
    assert_eq!(ApplicationError::service_unavailable("d", None).status(), 503);
    assert_eq!(ApplicationError::too_many_requests("d", None).status(), 429);
    assert_eq!(ApplicationError::unauthorized("d", None).status(), 401);
    assert_eq!(ApplicationError::unprocessable_entity("d", None).status(), 422);
}

#[test]
fn codes_and_keys_are_stable() {
    assert_eq!(InternalError::timeout("x", None).code(), ErrorCode(1002));
    assert_eq!(
        InternalError::timeout("x", None).key().to_string(),
        "err::internal::timeout"
    );
    assert_eq!(ApplicationError::unprocessable_entity("x", None).code(), ErrorCode(2011));
    assert_eq!(
        ApplicationError::unprocessable_entity("x", None).key().to_string(),
        "err::application::unprocessable_entity"
    );
    let with_subtype = InternalError::connection_error("x", Some("Authentication failed"));
    assert_eq!(
        with_subtype.key().to_string(),
        "err::internal::connection_error::authentication_failed"
    );
}

#[test]
fn set_meta_keeps_identity() {
    let e = InternalError::key_not_found("missing", None);
    let code = e.code();
    let key = e.key();
    let with_meta = e.set_meta(&JsonValue::Str("ctx".to_string()));
    assert_eq!(with_meta.code(), code);
    assert_eq!(with_meta.key(), key);
    assert_eq!(with_meta.meta(), Some(JsonValue::Str("ctx".to_string())));
}

#[test]
fn from_err_code_picks_kinds() {
    assert_eq!(PicaError::from_err_code(404, "m", None).status(), 404);
    assert_eq!(PicaError::from_err_code(422, "m", None).status(), 422);
    assert_eq!(PicaError::from_err_code(418, "m", None).status(), 400);
    let server = PicaError::from_err_code(502, "boom", None);
    assert!(server.is_internal());
    assert_eq!(
        server.message().to_string(),
        "Unknown error with status code: 502, message: boom"
    );
}

#[test]
fn wrapping_recovers_the_error() {
    let e = ApplicationError::too_many_requests("slow down", None);
    let back = PicaError::from_wrapped(Some(e.duplicate()), "ignored");
    assert_eq!(back, e);
    let fresh = PicaError::from_wrapped(None, "lost");
    assert_eq!(fresh.code(), ErrorCode(1000));
    assert_eq!(fresh.message().to_string(), "lost");
}

#[test]
fn store_duplicate_key_is_conflict() {
    let e = from_store_error(StoreErrorKind::Command {
        code: 11000,
        message: "dup".to_string(),
    });
    assert_eq!(e.code(), ErrorCode(1001));
    assert_eq!(e.status(), 409);
    let other = from_store_error(StoreErrorKind::Command {
        code: 1,
        message: "else".to_string(),
    });
    assert_eq!(other.code(), ErrorCode(1000));
    let dns = from_store_error(StoreErrorKind::DnsResolve {
        message: "no host".to_string(),
    });
    assert_eq!(dns.status(), 502);
}

#[test]
fn as_json_carries_code_and_status() {
    let e = ApplicationError::not_found("gone", None);
    match e.as_json() {
        JsonValue::Obj(fields) => {
            assert!(fields.contains(&("code".to_string(), JsonValue::Num(2005))));
            assert!(fields.contains(&("status".to_string(), JsonValue::Num(404))));
            assert!(fields.contains(&("message".to_string(), JsonValue::Str("gone".to_string()))));
        }
        other => panic!("expected an object, got {:?}", other),
    }
}
