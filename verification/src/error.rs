//! Two-tier error taxonomy: internal (infrastructure, 1000-series) and
//! application (HTTP-shaped, 2000-series) errors. Each error carries a
//! stable numeric code, a machine key `err::<tier>::<kind>[::<subtype>]`,
//! a message, and optional JSON metadata that can be attached after the
//! fact without altering the error's identity.
use crate::json::{jview, JsonValue, Jv};
use vstd::prelude::*;
use vstd::string::StringExecFns;

verus! {

/// Stable numeric identifier of an error kind.
#[derive(Debug, Clone, Copy, PartialEq, Eq, Structural)]
pub struct ErrorCode(pub u16);

impl ErrorCode {
    pub fn as_u16(&self) -> (r: u16)
        ensures
            r == self.0,
    {
        self.0
    }

    /// Decimal rendering of the code.
    pub fn to_string(&self) -> (r: String)
        ensures
            r@ == crate::strutil::decimal_rep(self.0 as nat),
    {
        crate::strutil::to_decimal(self.0 as u64)
    }
}

/// Machine-readable key of an error kind.
#[derive(Debug, Clone, PartialEq, Eq)]
pub struct ErrorKey(pub String);

/// The key text for an internal error kind with an optional subtype.
pub open spec fn internal_key_view(kind: Seq<char>, subtype: Option<Seq<char>>) -> Seq<char> {
    match subtype {
        Option::None => "err::internal::"@ + kind,
        Option::Some(s) => "err::internal::"@ + kind + "::"@ + s,
    }
}

/// The key text for an application error kind with an optional subtype.
pub open spec fn application_key_view(kind: Seq<char>, subtype: Option<Seq<char>>) -> Seq<char> {
    match subtype {
        Option::None => "err::application::"@ + kind,
        Option::Some(s) => "err::application::"@ + kind + "::"@ + s,
    }
}

/// View of an optional owned string.
pub open spec fn opt_str_view(o: Option<String>) -> Option<Seq<char>> {
    match o {
        Option::None => Option::None,
        Option::Some(s) => Option::Some(s@),
    }
}

/// View of an optional JSON value.
pub open spec fn opt_jview(o: Option<JsonValue>) -> Option<Jv> {
    match o {
        Option::None => Option::None,
        Option::Some(v) => Option::Some(jview(v)),
    }
}

impl ErrorKey {
    pub fn internal(key: &str, subtype: Option<&str>) -> (r: Self)
        ensures
            r.0@ == internal_key_view(key@, match subtype {
                Option::None => Option::<Seq<char>>::None,
                Option::Some(s) => Option::Some(s@),
            }),
    {
        let mut s = String::from_str("err::internal::").concat(key);
        match subtype {
            Option::None => ErrorKey(s),
            Option::Some(sub) => {
                s.append("::");
                s.append(sub);
                ErrorKey(s)
            },
        }
    }

    pub fn application(key: &str, subtype: Option<&str>) -> (r: Self)
        ensures
            r.0@ == application_key_view(key@, match subtype {
                Option::None => Option::<Seq<char>>::None,
                Option::Some(s) => Option::Some(s@),
            }),
    {
        let mut s = String::from_str("err::application::").concat(key);
        match subtype {
            Option::None => ErrorKey(s),
            Option::Some(sub) => {
                s.append("::");
                s.append(sub);
                ErrorKey(s)
            },
        }
    }

    pub fn to_string(&self) -> (r: String)
        ensures
            r@ == self.0@,
    {
        self.0.clone()
    }
}

/// Human-readable error text.
#[derive(Debug, Clone, PartialEq, Eq)]
pub struct ErrorMessage(pub String);

impl ErrorMessage {
    pub fn to_string(&self) -> (r: String)
        ensures
            r@ == self.0@,
    {
        self.0.clone()
    }
}

/// The kind of an internal error, separated from its payload so that
/// contracts can speak of the kind alone.
#[derive(Debug, Clone, Copy, PartialEq, Eq, Structural)]
pub enum InternalKind {
    Unknown,
    UniqueFieldViolation,
    Timeout,
    ConnectionError,
    KeyNotFound,
    InvalidArgument,
    IOErr,
    EncryptionError,
    DecryptionError,
    ConfigurationError,
    ScriptError,
    SerializeError,
    DeserializeError,
}

/// The kind of an application error.
#[derive(Debug, Clone, Copy, PartialEq, Eq, Structural)]
pub enum ApplicationKind {
    BadRequest,
    Conflict,
    Forbidden,
    InternalServerError,
    MethodNotAllowed,
    NotFound,
    NotImplemented,
    FailedDependency,
    ServiceUnavailable,
    TooManyRequests,
    Unauthorized,
    UnprocessableEntity,
}

/// Numeric code of an internal error kind (1000-series), fixed forever.
pub open spec fn internal_code(k: InternalKind) -> u16 {
    match k {
        InternalKind::Unknown => 1000,
        InternalKind::UniqueFieldViolation => 1001,
        InternalKind::Timeout => 1002,
        InternalKind::ConnectionError => 1003,
        InternalKind::KeyNotFound => 1004,
        InternalKind::InvalidArgument => 1005,
        InternalKind::IOErr => 1006,
        InternalKind::EncryptionError => 1007,
        InternalKind::DecryptionError => 1008,
        InternalKind::ConfigurationError => 1009,
        InternalKind::ScriptError => 1010,
        InternalKind::SerializeError => 1011,
        InternalKind::DeserializeError => 1012,
    }
}

/// Key fragment of an internal error kind, fixed forever.
pub open spec fn internal_kind_key(k: InternalKind) -> Seq<char> {
    match k {
        InternalKind::Unknown => "unknown"@,
        InternalKind::UniqueFieldViolation => "unique_violation"@,
        InternalKind::Timeout => "timeout"@,
        InternalKind::ConnectionError => "connection_error"@,
        InternalKind::KeyNotFound => "key_not_found"@,
        InternalKind::InvalidArgument => "invalid_argument"@,
        InternalKind::IOErr => "io_err"@,
        InternalKind::EncryptionError => "encryption_error"@,
        InternalKind::DecryptionError => "decryption_error"@,
        InternalKind::ConfigurationError => "configuration_error"@,
        InternalKind::ScriptError => "script_error"@,
        InternalKind::SerializeError => "serialize_error"@,
        InternalKind::DeserializeError => "deserialize_error"@,
    }
}

/// HTTP status an internal error maps to.
pub open spec fn internal_status(k: InternalKind) -> u16 {
    match k {
        InternalKind::UniqueFieldViolation => 409,
        InternalKind::Timeout => 504,
        InternalKind::ConnectionError => 502,
        InternalKind::KeyNotFound => 404,
        InternalKind::InvalidArgument => 400,
        InternalKind::SerializeError => 400,
        InternalKind::DeserializeError => 400,
        _ => 500,
    }
}

/// Numeric code of an application error kind (2000-series), fixed forever.
pub open spec fn application_code(k: ApplicationKind) -> u16 {
    match k {
        ApplicationKind::BadRequest => 2000,
        ApplicationKind::Conflict => 2001,
        ApplicationKind::Forbidden => 2002,
        ApplicationKind::InternalServerError => 2003,
        ApplicationKind::MethodNotAllowed => 2004,
        ApplicationKind::NotFound => 2005,
        ApplicationKind::NotImplemented => 2006,
        ApplicationKind::FailedDependency => 2007,
        ApplicationKind::ServiceUnavailable => 2008,
        ApplicationKind::TooManyRequests => 2009,
        ApplicationKind::Unauthorized => 2010,
        ApplicationKind::UnprocessableEntity => 2011,
    }
}

/// Key fragment of an application error kind, fixed forever.
pub open spec fn application_kind_key(k: ApplicationKind) -> Seq<char> {
    match k {
        ApplicationKind::BadRequest => "bad_request"@,
        ApplicationKind::Conflict => "conflict"@,
        ApplicationKind::Forbidden => "forbidden"@,
        ApplicationKind::InternalServerError => "internal_server_error"@,
        ApplicationKind::MethodNotAllowed => "method_not_allowed"@,
        ApplicationKind::NotFound => "not_found"@,
        ApplicationKind::NotImplemented => "not_implemented"@,
        ApplicationKind::FailedDependency => "failed_dependency"@,
        ApplicationKind::ServiceUnavailable => "service_unavailable"@,
        ApplicationKind::TooManyRequests => "too_many_requests"@,
        ApplicationKind::Unauthorized => "unauthorized"@,
        ApplicationKind::UnprocessableEntity => "unprocessable_entity"@,
    }
}

/// HTTP status an application error maps to.
pub open spec fn application_status(k: ApplicationKind) -> u16 {
    match k {
        ApplicationKind::BadRequest => 400,
        ApplicationKind::Conflict => 409,
        ApplicationKind::Forbidden => 403,
        ApplicationKind::InternalServerError => 500,
        ApplicationKind::MethodNotAllowed => 405,
        ApplicationKind::NotFound => 404,
        ApplicationKind::NotImplemented => 501,
        ApplicationKind::FailedDependency => 424,
        ApplicationKind::ServiceUnavailable => 503,
        ApplicationKind::TooManyRequests => 429,
        ApplicationKind::Unauthorized => 401,
        ApplicationKind::UnprocessableEntity => 422,
    }
}

/// Infrastructure and invariant failures.
#[derive(Debug, PartialEq, Eq)]
pub enum InternalError {
    UnknownError { message: String, subtype: Option<String>, meta: Option<JsonValue> },
    UniqueFieldViolation { message: String, subtype: Option<String>, meta: Option<JsonValue> },
    Timeout { message: String, subtype: Option<String>, meta: Option<JsonValue> },
    ConnectionError { message: String, subtype: Option<String>, meta: Option<JsonValue> },
    KeyNotFound { message: String, subtype: Option<String>, meta: Option<JsonValue> },
    InvalidArgument { message: String, subtype: Option<String>, meta: Option<JsonValue> },
    IOErr { message: String, subtype: Option<String>, meta: Option<JsonValue> },
    EncryptionError { message: String, subtype: Option<String>, meta: Option<JsonValue> },
    DecryptionError { message: String, subtype: Option<String>, meta: Option<JsonValue> },
    ConfigurationError { message: String, subtype: Option<String>, meta: Option<JsonValue> },
    ScriptError { message: String, subtype: Option<String>, meta: Option<JsonValue> },
    SerializeError { message: String, subtype: Option<String>, meta: Option<JsonValue> },
    DeserializeError { message: String, subtype: Option<String>, meta: Option<JsonValue> },
}

/// Kind of an internal error.
pub open spec fn ikind(e: InternalError) -> InternalKind {
    match e {
        InternalError::UnknownError { .. } => InternalKind::Unknown,
        InternalError::UniqueFieldViolation { .. } => InternalKind::UniqueFieldViolation,
        InternalError::Timeout { .. } => InternalKind::Timeout,
        InternalError::ConnectionError { .. } => InternalKind::ConnectionError,
        InternalError::KeyNotFound { .. } => InternalKind::KeyNotFound,
        InternalError::InvalidArgument { .. } => InternalKind::InvalidArgument,
        InternalError::IOErr { .. } => InternalKind::IOErr,
        InternalError::EncryptionError { .. } => InternalKind::EncryptionError,
        InternalError::DecryptionError { .. } => InternalKind::DecryptionError,
        InternalError::ConfigurationError { .. } => InternalKind::ConfigurationError,
        InternalError::ScriptError { .. } => InternalKind::ScriptError,
        InternalError::SerializeError { .. } => InternalKind::SerializeError,
        InternalError::DeserializeError { .. } => InternalKind::DeserializeError,
    }
}

/// Message text of an internal error.
pub open spec fn imessage(e: InternalError) -> Seq<char> {
    match e {
        InternalError::UnknownError { message, .. } => message@,
        InternalError::UniqueFieldViolation { message, .. } => message@,
        InternalError::Timeout { message, .. } => message@,
        InternalError::ConnectionError { message, .. } => message@,
        InternalError::KeyNotFound { message, .. } => message@,
        InternalError::InvalidArgument { message, .. } => message@,
        InternalError::IOErr { message, .. } => message@,
        InternalError::EncryptionError { message, .. } => message@,
        InternalError::DecryptionError { message, .. } => message@,
        InternalError::ConfigurationError { message, .. } => message@,
        InternalError::ScriptError { message, .. } => message@,
        InternalError::SerializeError { message, .. } => message@,
        InternalError::DeserializeError { message, .. } => message@,
    }
}

/// Subtype text of an internal error.
pub open spec fn isubtype(e: InternalError) -> Option<Seq<char>> {
    match e {
        InternalError::UnknownError { subtype, .. } => opt_str_view(subtype),
        InternalError::UniqueFieldViolation { subtype, .. } => opt_str_view(subtype),
        InternalError::Timeout { subtype, .. } => opt_str_view(subtype),
        InternalError::ConnectionError { subtype, .. } => opt_str_view(subtype),
        InternalError::KeyNotFound { subtype, .. } => opt_str_view(subtype),
        InternalError::InvalidArgument { subtype, .. } => opt_str_view(subtype),
        InternalError::IOErr { subtype, .. } => opt_str_view(subtype),
        InternalError::EncryptionError { subtype, .. } => opt_str_view(subtype),
        InternalError::DecryptionError { subtype, .. } => opt_str_view(subtype),
        InternalError::ConfigurationError { subtype, .. } => opt_str_view(subtype),
        InternalError::ScriptError { subtype, .. } => opt_str_view(subtype),
        InternalError::SerializeError { subtype, .. } => opt_str_view(subtype),
        InternalError::DeserializeError { subtype, .. } => opt_str_view(subtype),
    }
}

/// Metadata of an internal error.
pub open spec fn imeta(e: InternalError) -> Option<Jv> {
    match e {
        InternalError::UnknownError { meta, .. } => opt_jview(meta),
        InternalError::UniqueFieldViolation { meta, .. } => opt_jview(meta),
        InternalError::Timeout { meta, .. } => opt_jview(meta),
        InternalError::ConnectionError { meta, .. } => opt_jview(meta),
        InternalError::KeyNotFound { meta, .. } => opt_jview(meta),
        InternalError::InvalidArgument { meta, .. } => opt_jview(meta),
        InternalError::IOErr { meta, .. } => opt_jview(meta),
        InternalError::EncryptionError { meta, .. } => opt_jview(meta),
        InternalError::DecryptionError { meta, .. } => opt_jview(meta),
        InternalError::ConfigurationError { meta, .. } => opt_jview(meta),
        InternalError::ScriptError { meta, .. } => opt_jview(meta),
        InternalError::SerializeError { meta, .. } => opt_jview(meta),
        InternalError::DeserializeError { meta, .. } => opt_jview(meta),
    }
}

impl InternalError {
    /// Rebuilds the same kind of error from its parts.
    pub fn assemble(kind: InternalKind, message: String, subtype: Option<String>, meta: Option<
        JsonValue,
    >) -> (r: InternalError)
        ensures
            ikind(r) == kind,
            imessage(r) == message@,
            isubtype(r) == opt_str_view(subtype),
            imeta(r) == opt_jview(meta),
    {
        match kind {
            InternalKind::Unknown => InternalError::UnknownError { message, subtype, meta },
            InternalKind::UniqueFieldViolation => InternalError::UniqueFieldViolation {
                message,
                subtype,
                meta,
            },
            InternalKind::Timeout => InternalError::Timeout { message, subtype, meta },
            InternalKind::ConnectionError => InternalError::ConnectionError {
                message,
                subtype,
                meta,
            },
            InternalKind::KeyNotFound => InternalError::KeyNotFound { message, subtype, meta },
            InternalKind::InvalidArgument => InternalError::InvalidArgument {
                message,
                subtype,
                meta,
            },
            InternalKind::IOErr => InternalError::IOErr { message, subtype, meta },
            InternalKind::EncryptionError => InternalError::EncryptionError {
                message,
                subtype,
                meta,
            },
            InternalKind::DecryptionError => InternalError::DecryptionError {
                message,
                subtype,
                meta,
            },
            InternalKind::ConfigurationError => InternalError::ConfigurationError {
                message,
                subtype,
                meta,
            },
            InternalKind::ScriptError => InternalError::ScriptError { message, subtype, meta },
            InternalKind::SerializeError => InternalError::SerializeError {
                message,
                subtype,
                meta,
            },
            InternalKind::DeserializeError => InternalError::DeserializeError {
                message,
                subtype,
                meta,
            },
        }
    }

    /// Takes the error apart into kind, message, subtype and metadata.
    pub fn into_parts(self) -> (r: (InternalKind, String, Option<String>, Option<JsonValue>))
        ensures
            r.0 == ikind(self),
            r.1@ == imessage(self),
            opt_str_view(r.2) == isubtype(self),
            opt_jview(r.3) == imeta(self),
    {
        match self {
            InternalError::UnknownError { message, subtype, meta } => (
                InternalKind::Unknown,
                message,
                subtype,
                meta,
            ),
            InternalError::UniqueFieldViolation { message, subtype, meta } => (
                InternalKind::UniqueFieldViolation,
                message,
                subtype,
                meta,
            ),
            InternalError::Timeout { message, subtype, meta } => (
                InternalKind::Timeout,
                message,
                subtype,
                meta,
            ),
            InternalError::ConnectionError { message, subtype, meta } => (
                InternalKind::ConnectionError,
                message,
                subtype,
                meta,
            ),
            InternalError::KeyNotFound { message, subtype, meta } => (
                InternalKind::KeyNotFound,
                message,
                subtype,
                meta,
            ),
            InternalError::InvalidArgument { message, subtype, meta } => (
                InternalKind::InvalidArgument,
                message,
                subtype,
                meta,
            ),
            InternalError::IOErr { message, subtype, meta } => (
                InternalKind::IOErr,
                message,
                subtype,
                meta,
            ),
            InternalError::EncryptionError { message, subtype, meta } => (
                InternalKind::EncryptionError,
                message,
                subtype,
                meta,
            ),
            InternalError::DecryptionError { message, subtype, meta } => (
                InternalKind::DecryptionError,
                message,
                subtype,
                meta,
            ),
            InternalError::ConfigurationError { message, subtype, meta } => (
                InternalKind::ConfigurationError,
                message,
                subtype,
                meta,
            ),
            InternalError::ScriptError { message, subtype, meta } => (
                InternalKind::ScriptError,
                message,
                subtype,
                meta,
            ),
            InternalError::SerializeError { message, subtype, meta } => (
                InternalKind::SerializeError,
                message,
                subtype,
                meta,
            ),
            InternalError::DeserializeError { message, subtype, meta } => (
                InternalKind::DeserializeError,
                message,
                subtype,
                meta,
            ),
        }
    }

    /// Replaces the metadata, keeping kind, message and subtype.
    pub fn set_meta(self, metadata: JsonValue) -> (r: Self)
        ensures
            ikind(r) == ikind(self),
            imessage(r) == imessage(self),
            isubtype(r) == isubtype(self),
            imeta(r) == Option::Some(jview(metadata)),
    {
        let (kind, message, subtype, _) = self.into_parts();
        InternalError::assemble(kind, message, subtype, Option::Some(metadata))
    }

    pub fn code(&self) -> (r: ErrorCode)
        ensures
            r.0 == internal_code(ikind(*self)),
    {
        let (kind, _, _, _) = self.kind_only();
        match kind {
            InternalKind::Unknown => ErrorCode(1000),
            InternalKind::UniqueFieldViolation => ErrorCode(1001),
            InternalKind::Timeout => ErrorCode(1002),
            InternalKind::ConnectionError => ErrorCode(1003),
            InternalKind::KeyNotFound => ErrorCode(1004),
            InternalKind::InvalidArgument => ErrorCode(1005),
            InternalKind::IOErr => ErrorCode(1006),
            InternalKind::EncryptionError => ErrorCode(1007),
            InternalKind::DecryptionError => ErrorCode(1008),
            InternalKind::ConfigurationError => ErrorCode(1009),
            InternalKind::ScriptError => ErrorCode(1010),
            InternalKind::SerializeError => ErrorCode(1011),
            InternalKind::DeserializeError => ErrorCode(1012),
        }
    }

    /// The kind, together with borrowed message, subtype and metadata.
    pub fn kind_only(&self) -> (r: (
        InternalKind,
        &String,
        &Option<String>,
        &Option<JsonValue>,
    ))
        ensures
            r.0 == ikind(*self),
            r.1@ == imessage(*self),
            opt_str_view(*r.2) == isubtype(*self),
            opt_jview(*r.3) == imeta(*self),
    {
        match self {
            InternalError::UnknownError { message, subtype, meta } => (
                InternalKind::Unknown,
                message,
                subtype,
                meta,
            ),
            InternalError::UniqueFieldViolation { message, subtype, meta } => (
                InternalKind::UniqueFieldViolation,
                message,
                subtype,
                meta,
            ),
            InternalError::Timeout { message, subtype, meta } => (
                InternalKind::Timeout,
                message,
                subtype,
                meta,
            ),
            InternalError::ConnectionError { message, subtype, meta } => (
                InternalKind::ConnectionError,
                message,
                subtype,
                meta,
            ),
            InternalError::KeyNotFound { message, subtype, meta } => (
                InternalKind::KeyNotFound,
                message,
                subtype,
                meta,
            ),
            InternalError::InvalidArgument { message, subtype, meta } => (
                InternalKind::InvalidArgument,
                message,
                subtype,
                meta,
            ),
            InternalError::IOErr { message, subtype, meta } => (
                InternalKind::IOErr,
                message,
                subtype,
                meta,
            ),
            InternalError::EncryptionError { message, subtype, meta } => (
                InternalKind::EncryptionError,
                message,
                subtype,
                meta,
            ),
            InternalError::DecryptionError { message, subtype, meta } => (
                InternalKind::DecryptionError,
                message,
                subtype,
                meta,
            ),
            InternalError::ConfigurationError { message, subtype, meta } => (
                InternalKind::ConfigurationError,
                message,
                subtype,
                meta,
            ),
            InternalError::ScriptError { message, subtype, meta } => (
                InternalKind::ScriptError,
                message,
                subtype,
                meta,
            ),
            InternalError::SerializeError { message, subtype, meta } => (
                InternalKind::SerializeError,
                message,
                subtype,
                meta,
            ),
            InternalError::DeserializeError { message, subtype, meta } => (
                InternalKind::DeserializeError,
                message,
                subtype,
                meta,
            ),
        }
    }

    pub fn key(&self) -> (r: ErrorKey)
        ensures
            r.0@ == internal_key_view(internal_kind_key(ikind(*self)), isubtype(*self)),
    {
        let (kind, _, subtype, _) = self.kind_only();
        let sub: Option<&str> = match subtype {
            Option::None => Option::None,
            Option::Some(s) => Option::Some(s.as_str()),
        };
        match kind {
            InternalKind::Unknown => ErrorKey::internal("unknown", sub),
            InternalKind::UniqueFieldViolation => ErrorKey::internal("unique_violation", sub),
            InternalKind::Timeout => ErrorKey::internal("timeout", sub),
            InternalKind::ConnectionError => ErrorKey::internal("connection_error", sub),
            InternalKind::KeyNotFound => ErrorKey::internal("key_not_found", sub),
            InternalKind::InvalidArgument => ErrorKey::internal("invalid_argument", sub),
            InternalKind::IOErr => ErrorKey::internal("io_err", sub),
            InternalKind::EncryptionError => ErrorKey::internal("encryption_error", sub),
            InternalKind::DecryptionError => ErrorKey::internal("decryption_error", sub),
            InternalKind::ConfigurationError => ErrorKey::internal("configuration_error", sub),
            InternalKind::ScriptError => ErrorKey::internal("script_error", sub),
            InternalKind::SerializeError => ErrorKey::internal("serialize_error", sub),
            InternalKind::DeserializeError => ErrorKey::internal("deserialize_error", sub),
        }
    }

    pub fn message(&self) -> (r: ErrorMessage)
        ensures
            r.0@ == imessage(*self),
    {
        let (_, message, _, _) = self.kind_only();
        ErrorMessage(message.clone())
    }

    pub fn meta(&self) -> (r: Option<JsonValue>)
        ensures
            opt_jview(r) == imeta(*self),
    {
        let (_, _, _, meta) = self.kind_only();
        match meta {
            Option::None => Option::None,
            Option::Some(v) => Option::Some(v.duplicate()),
        }
    }

    /// Coercion of an internal error to the application tier: field-preserving
    /// for conflict, not-found and bad-request shapes, and a generic internal
    /// server error for everything infrastructure-like.
    pub fn to_application(self) -> (r: ApplicationError)
        ensures
            aview(r) == coerce_view(iview(self)),
    {
        let (kind, message, subtype, meta) = self.into_parts();
        match kind {
            InternalKind::UniqueFieldViolation => ApplicationError::Conflict {
                message,
                subtype,
                meta,
            },
            InternalKind::KeyNotFound => ApplicationError::NotFound { message, subtype, meta },
            InternalKind::InvalidArgument => ApplicationError::BadRequest {
                message,
                subtype,
                meta,
            },
            InternalKind::SerializeError => ApplicationError::BadRequest { message, subtype, meta },
            InternalKind::DeserializeError => ApplicationError::BadRequest {
                message,
                subtype,
                meta,
            },
            _ => ApplicationError::InternalServerError {
                message: String::from_str("An unknown error occurred"),
                subtype: Option::None,
                meta: Option::None,
            },
        }
    }
}

/// HTTP-shaped application errors.
#[derive(Debug, PartialEq, Eq)]
pub enum ApplicationError {
    BadRequest { message: String, subtype: Option<String>, meta: Option<JsonValue> },
    Conflict { message: String, subtype: Option<String>, meta: Option<JsonValue> },
    Forbidden { message: String, subtype: Option<String>, meta: Option<JsonValue> },
    InternalServerError { message: String, subtype: Option<String>, meta: Option<JsonValue> },
    MethodNotAllowed { message: String, subtype: Option<String>, meta: Option<JsonValue> },
    NotFound { message: String, subtype: Option<String>, meta: Option<JsonValue> },
    NotImplemented { message: String, subtype: Option<String>, meta: Option<JsonValue> },
    FailedDependency { message: String, subtype: Option<String>, meta: Option<JsonValue> },
    ServiceUnavailable { message: String, subtype: Option<String>, meta: Option<JsonValue> },
    TooManyRequests { message: String, subtype: Option<String>, meta: Option<JsonValue> },
    Unauthorized { message: String, subtype: Option<String>, meta: Option<JsonValue> },
    UnprocessableEntity { message: String, subtype: Option<String>, meta: Option<JsonValue> },
}

/// Kind of an application error.
pub open spec fn akind(e: ApplicationError) -> ApplicationKind {
    match e {
        ApplicationError::BadRequest { .. } => ApplicationKind::BadRequest,
        ApplicationError::Conflict { .. } => ApplicationKind::Conflict,
        ApplicationError::Forbidden { .. } => ApplicationKind::Forbidden,
        ApplicationError::InternalServerError { .. } => ApplicationKind::InternalServerError,
        ApplicationError::MethodNotAllowed { .. } => ApplicationKind::MethodNotAllowed,
        ApplicationError::NotFound { .. } => ApplicationKind::NotFound,
        ApplicationError::NotImplemented { .. } => ApplicationKind::NotImplemented,
        ApplicationError::FailedDependency { .. } => ApplicationKind::FailedDependency,
        ApplicationError::ServiceUnavailable { .. } => ApplicationKind::ServiceUnavailable,
        ApplicationError::TooManyRequests { .. } => ApplicationKind::TooManyRequests,
        ApplicationError::Unauthorized { .. } => ApplicationKind::Unauthorized,
        ApplicationError::UnprocessableEntity { .. } => ApplicationKind::UnprocessableEntity,
    }
}

/// Message text of an application error.
pub open spec fn amessage(e: ApplicationError) -> Seq<char> {
    match e {
        ApplicationError::BadRequest { message, .. } => message@,
        ApplicationError::Conflict { message, .. } => message@,
        ApplicationError::Forbidden { message, .. } => message@,
        ApplicationError::InternalServerError { message, .. } => message@,
        ApplicationError::MethodNotAllowed { message, .. } => message@,
        ApplicationError::NotFound { message, .. } => message@,
        ApplicationError::NotImplemented { message, .. } => message@,
        ApplicationError::FailedDependency { message, .. } => message@,
        ApplicationError::ServiceUnavailable { message, .. } => message@,
        ApplicationError::TooManyRequests { message, .. } => message@,
        ApplicationError::Unauthorized { message, .. } => message@,
        ApplicationError::UnprocessableEntity { message, .. } => message@,
    }
}

/// Subtype text of an application error.
pub open spec fn asubtype(e: ApplicationError) -> Option<Seq<char>> {
    match e {
        ApplicationError::BadRequest { subtype, .. } => opt_str_view(subtype),
        ApplicationError::Conflict { subtype, .. } => opt_str_view(subtype),
        ApplicationError::Forbidden { subtype, .. } => opt_str_view(subtype),
        ApplicationError::InternalServerError { subtype, .. } => opt_str_view(subtype),
        ApplicationError::MethodNotAllowed { subtype, .. } => opt_str_view(subtype),
        ApplicationError::NotFound { subtype, .. } => opt_str_view(subtype),
        ApplicationError::NotImplemented { subtype, .. } => opt_str_view(subtype),
        ApplicationError::FailedDependency { subtype, .. } => opt_str_view(subtype),
        ApplicationError::ServiceUnavailable { subtype, .. } => opt_str_view(subtype),
        ApplicationError::TooManyRequests { subtype, .. } => opt_str_view(subtype),
        ApplicationError::Unauthorized { subtype, .. } => opt_str_view(subtype),
        ApplicationError::UnprocessableEntity { subtype, .. } => opt_str_view(subtype),
    }
}

/// Metadata of an application error.
pub open spec fn ameta(e: ApplicationError) -> Option<Jv> {
    match e {
        ApplicationError::BadRequest { meta, .. } => opt_jview(meta),
        ApplicationError::Conflict { meta, .. } => opt_jview(meta),
        ApplicationError::Forbidden { meta, .. } => opt_jview(meta),
        ApplicationError::InternalServerError { meta, .. } => opt_jview(meta),
        ApplicationError::MethodNotAllowed { meta, .. } => opt_jview(meta),
        ApplicationError::NotFound { meta, .. } => opt_jview(meta),
        ApplicationError::NotImplemented { meta, .. } => opt_jview(meta),
        ApplicationError::FailedDependency { meta, .. } => opt_jview(meta),
        ApplicationError::ServiceUnavailable { meta, .. } => opt_jview(meta),
        ApplicationError::TooManyRequests { meta, .. } => opt_jview(meta),
        ApplicationError::Unauthorized { meta, .. } => opt_jview(meta),
        ApplicationError::UnprocessableEntity { meta, .. } => opt_jview(meta),
    }
}

impl ApplicationError {
    /// Rebuilds the same kind of error from its parts.
    pub fn assemble(kind: ApplicationKind, message: String, subtype: Option<String>, meta: Option<
        JsonValue,
    >) -> (r: ApplicationError)
        ensures
            akind(r) == kind,
            amessage(r) == message@,
            asubtype(r) == opt_str_view(subtype),
            ameta(r) == opt_jview(meta),
    {
        match kind {
            ApplicationKind::BadRequest => ApplicationError::BadRequest { message, subtype, meta },
            ApplicationKind::Conflict => ApplicationError::Conflict { message, subtype, meta },
            ApplicationKind::Forbidden => ApplicationError::Forbidden { message, subtype, meta },
            ApplicationKind::InternalServerError => ApplicationError::InternalServerError {
                message,
                subtype,
                meta,
            },
            ApplicationKind::MethodNotAllowed => ApplicationError::MethodNotAllowed {
                message,
                subtype,
                meta,
            },
            ApplicationKind::NotFound => ApplicationError::NotFound { message, subtype, meta },
            ApplicationKind::NotImplemented => ApplicationError::NotImplemented {
                message,
                subtype,
                meta,
            },
            ApplicationKind::FailedDependency => ApplicationError::FailedDependency {
                message,
                subtype,
                meta,
            },
            ApplicationKind::ServiceUnavailable => ApplicationError::ServiceUnavailable {
                message,
                subtype,
                meta,
            },
            ApplicationKind::TooManyRequests => ApplicationError::TooManyRequests {
                message,
                subtype,
                meta,
            },
            ApplicationKind::Unauthorized => ApplicationError::Unauthorized {
                message,
                subtype,
                meta,
            },
            ApplicationKind::UnprocessableEntity => ApplicationError::UnprocessableEntity {
                message,
                subtype,
                meta,
            },
        }
    }

    /// Takes the error apart into kind, message, subtype and metadata.
    pub fn into_parts(self) -> (r: (ApplicationKind, String, Option<String>, Option<JsonValue>))
        ensures
            r.0 == akind(self),
            r.1@ == amessage(self),
            opt_str_view(r.2) == asubtype(self),
            opt_jview(r.3) == ameta(self),
    {
        match self {
            ApplicationError::BadRequest { message, subtype, meta } => (
                ApplicationKind::BadRequest,
                message,
                subtype,
                meta,
            ),
            ApplicationError::Conflict { message, subtype, meta } => (
                ApplicationKind::Conflict,
                message,
                subtype,
                meta,
            ),
            ApplicationError::Forbidden { message, subtype, meta } => (
                ApplicationKind::Forbidden,
                message,
                subtype,
                meta,
            ),
            ApplicationError::InternalServerError { message, subtype, meta } => (
                ApplicationKind::InternalServerError,
                message,
                subtype,
                meta,
            ),
            ApplicationError::MethodNotAllowed { message, subtype, meta } => (
                ApplicationKind::MethodNotAllowed,
                message,
                subtype,
                meta,
            ),
            ApplicationError::NotFound { message, subtype, meta } => (
                ApplicationKind::NotFound,
                message,
                subtype,
                meta,
            ),
            ApplicationError::NotImplemented { message, subtype, meta } => (
                ApplicationKind::NotImplemented,
                message,
                subtype,
                meta,
            ),
            ApplicationError::FailedDependency { message, subtype, meta } => (
                ApplicationKind::FailedDependency,
                message,
                subtype,
                meta,
            ),
            ApplicationError::ServiceUnavailable { message, subtype, meta } => (
                ApplicationKind::ServiceUnavailable,
                message,
                subtype,
                meta,
            ),
            ApplicationError::TooManyRequests { message, subtype, meta } => (
                ApplicationKind::TooManyRequests,
                message,
                subtype,
                meta,
            ),
            ApplicationError::Unauthorized { message, subtype, meta } => (
                ApplicationKind::Unauthorized,
                message,
                subtype,
                meta,
            ),
            ApplicationError::UnprocessableEntity { message, subtype, meta } => (
                ApplicationKind::UnprocessableEntity,
                message,
                subtype,
                meta,
            ),
        }
    }

    /// The kind, together with borrowed message, subtype and metadata.
    pub fn kind_only(&self) -> (r: (
        ApplicationKind,
        &String,
        &Option<String>,
        &Option<JsonValue>,
    ))
        ensures
            r.0 == akind(*self),
            r.1@ == amessage(*self),
            opt_str_view(*r.2) == asubtype(*self),
            opt_jview(*r.3) == ameta(*self),
    {
        match self {
            ApplicationError::BadRequest { message, subtype, meta } => (
                ApplicationKind::BadRequest,
                message,
                subtype,
                meta,
            ),
            ApplicationError::Conflict { message, subtype, meta } => (
                ApplicationKind::Conflict,
                message,
                subtype,
                meta,
            ),
            ApplicationError::Forbidden { message, subtype, meta } => (
                ApplicationKind::Forbidden,
                message,
                subtype,
                meta,
            ),
            ApplicationError::InternalServerError { message, subtype, meta } => (
                ApplicationKind::InternalServerError,
                message,
                subtype,
                meta,
            ),
            ApplicationError::MethodNotAllowed { message, subtype, meta } => (
                ApplicationKind::MethodNotAllowed,
                message,
                subtype,
                meta,
            ),
            ApplicationError::NotFound { message, subtype, meta } => (
                ApplicationKind::NotFound,
                message,
                subtype,
                meta,
            ),
            ApplicationError::NotImplemented { message, subtype, meta } => (
                ApplicationKind::NotImplemented,
                message,
                subtype,
                meta,
            ),
            ApplicationError::FailedDependency { message, subtype, meta } => (
                ApplicationKind::FailedDependency,
                message,
                subtype,
                meta,
            ),
            ApplicationError::ServiceUnavailable { message, subtype, meta } => (
                ApplicationKind::ServiceUnavailable,
                message,
                subtype,
                meta,
            ),
            ApplicationError::TooManyRequests { message, subtype, meta } => (
                ApplicationKind::TooManyRequests,
                message,
                subtype,
                meta,
            ),
            ApplicationError::Unauthorized { message, subtype, meta } => (
                ApplicationKind::Unauthorized,
                message,
                subtype,
                meta,
            ),
            ApplicationError::UnprocessableEntity { message, subtype, meta } => (
                ApplicationKind::UnprocessableEntity,
                message,
                subtype,
                meta,
            ),
        }
    }

    /// Replaces the metadata, keeping kind, message and subtype.
    pub fn set_meta(self, metadata: JsonValue) -> (r: Self)
        ensures
            akind(r) == akind(self),
            amessage(r) == amessage(self),
            asubtype(r) == asubtype(self),
            ameta(r) == Option::Some(jview(metadata)),
    {
        let (kind, message, subtype, _) = self.into_parts();
        ApplicationError::assemble(kind, message, subtype, Option::Some(metadata))
    }

    pub fn code(&self) -> (r: ErrorCode)
        ensures
            r.0 == application_code(akind(*self)),
    {
        let (kind, _, _, _) = self.kind_only();
        match kind {
            ApplicationKind::BadRequest => ErrorCode(2000),
            ApplicationKind::Conflict => ErrorCode(2001),
            ApplicationKind::Forbidden => ErrorCode(2002),
            ApplicationKind::InternalServerError => ErrorCode(2003),
            ApplicationKind::MethodNotAllowed => ErrorCode(2004),
            ApplicationKind::NotFound => ErrorCode(2005),
            ApplicationKind::NotImplemented => ErrorCode(2006),
            ApplicationKind::FailedDependency => ErrorCode(2007),
            ApplicationKind::ServiceUnavailable => ErrorCode(2008),
            ApplicationKind::TooManyRequests => ErrorCode(2009),
            ApplicationKind::Unauthorized => ErrorCode(2010),
            ApplicationKind::UnprocessableEntity => ErrorCode(2011),
        }
    }

    pub fn key(&self) -> (r: ErrorKey)
        ensures
            r.0@ == application_key_view(application_kind_key(akind(*self)), asubtype(*self)),
    {
        let (kind, _, subtype, _) = self.kind_only();
        let sub: Option<&str> = match subtype {
            Option::None => Option::None,
            Option::Some(s) => Option::Some(s.as_str()),
        };
        match kind {
            ApplicationKind::BadRequest => ErrorKey::application("bad_request", sub),
            ApplicationKind::Conflict => ErrorKey::application("conflict", sub),
            ApplicationKind::Forbidden => ErrorKey::application("forbidden", sub),
            ApplicationKind::InternalServerError => ErrorKey::application(
                "internal_server_error",
                sub,
            ),
            ApplicationKind::MethodNotAllowed => ErrorKey::application("method_not_allowed", sub),
            ApplicationKind::NotFound => ErrorKey::application("not_found", sub),
            ApplicationKind::NotImplemented => ErrorKey::application("not_implemented", sub),
            ApplicationKind::FailedDependency => ErrorKey::application("failed_dependency", sub),
            ApplicationKind::ServiceUnavailable => ErrorKey::application(
                "service_unavailable",
                sub,
            ),
            ApplicationKind::TooManyRequests => ErrorKey::application("too_many_requests", sub),
            ApplicationKind::Unauthorized => ErrorKey::application("unauthorized", sub),
            ApplicationKind::UnprocessableEntity => ErrorKey::application(
                "unprocessable_entity",
                sub,
            ),
        }
    }

    pub fn message(&self) -> (r: ErrorMessage)
        ensures
            r.0@ == amessage(*self),
    {
        let (_, message, _, _) = self.kind_only();
        ErrorMessage(message.clone())
    }

    pub fn meta(&self) -> (r: Option<JsonValue>)
        ensures
            opt_jview(r) == ameta(*self),
    {
        let (_, _, _, meta) = self.kind_only();
        match meta {
            Option::None => Option::None,
            Option::Some(v) => Option::Some(v.duplicate()),
        }
    }
}

impl From<InternalError> for ApplicationError {
    fn from(e: InternalError) -> Self {
        e.to_application()
    }
}

// The verified contract of the coercion is on `to_application`; this trait
// only lets `From::from` be called, claiming nothing of its result.
impl vstd::std_specs::convert::FromSpecImpl<InternalError> for ApplicationError {
    open spec fn obeys_from_spec() -> bool {
        false
    }

    open spec fn from_spec(e: InternalError) -> Self {
        match e {
            InternalError::UniqueFieldViolation { message, subtype, meta } => {
                ApplicationError::Conflict { message, subtype, meta }
            },
            InternalError::KeyNotFound { message, subtype, meta } => {
                ApplicationError::NotFound { message, subtype, meta }
            },
            InternalError::InvalidArgument { message, subtype, meta } => {
                ApplicationError::BadRequest { message, subtype, meta }
            },
            InternalError::SerializeError { message, subtype, meta } => {
                ApplicationError::BadRequest { message, subtype, meta }
            },
            InternalError::DeserializeError { message, subtype, meta } => {
                ApplicationError::BadRequest { message, subtype, meta }
            },
            InternalError::UnknownError { message, subtype, meta } => {
                ApplicationError::InternalServerError { message, subtype, meta }
            },
            InternalError::Timeout { message, subtype, meta } => {
                ApplicationError::InternalServerError { message, subtype, meta }
            },
            InternalError::ConnectionError { message, subtype, meta } => {
                ApplicationError::InternalServerError { message, subtype, meta }
            },
            InternalError::IOErr { message, subtype, meta } => {
                ApplicationError::InternalServerError { message, subtype, meta }
            },
            InternalError::EncryptionError { message, subtype, meta } => {
                ApplicationError::InternalServerError { message, subtype, meta }
            },
            InternalError::DecryptionError { message, subtype, meta } => {
                ApplicationError::InternalServerError { message, subtype, meta }
            },
            InternalError::ConfigurationError { message, subtype, meta } => {
                ApplicationError::InternalServerError { message, subtype, meta }
            },
            InternalError::ScriptError { message, subtype, meta } => {
                ApplicationError::InternalServerError { message, subtype, meta }
            },
        }
    }
}

/// Tier-agnostic model of an error: its kind, message, subtype and metadata.
pub enum ErrView {
    Int { kind: InternalKind, message: Seq<char>, subtype: Option<Seq<char>>, meta: Option<Jv> },
    App { kind: ApplicationKind, message: Seq<char>, subtype: Option<Seq<char>>, meta: Option<Jv> },
}

pub open spec fn iview(e: InternalError) -> ErrView {
    ErrView::Int { kind: ikind(e), message: imessage(e), subtype: isubtype(e), meta: imeta(e) }
}

pub open spec fn aview(e: ApplicationError) -> ErrView {
    ErrView::App { kind: akind(e), message: amessage(e), subtype: asubtype(e), meta: ameta(e) }
}

/// Application kind an internal kind coerces to.
pub open spec fn coerce_internal(kind: InternalKind) -> ApplicationKind {
    match kind {
        InternalKind::UniqueFieldViolation => ApplicationKind::Conflict,
        InternalKind::KeyNotFound => ApplicationKind::NotFound,
        InternalKind::InvalidArgument => ApplicationKind::BadRequest,
        InternalKind::SerializeError => ApplicationKind::BadRequest,
        InternalKind::DeserializeError => ApplicationKind::BadRequest,
        _ => ApplicationKind::InternalServerError,
    }
}

/// Coercion of any error model to the application tier. Kinds that
/// become a generic internal server error lose their payload.
pub open spec fn coerce_view(v: ErrView) -> ErrView {
    match v {
        ErrView::App { .. } => v,
        ErrView::Int { kind, message, subtype, meta } => {
            if coerce_internal(kind) == ApplicationKind::InternalServerError {
                ErrView::App {
                    kind: ApplicationKind::InternalServerError,
                    message: "An unknown error occurred"@,
                    subtype: Option::None,
                    meta: Option::None,
                }
            } else {
                ErrView::App { kind: coerce_internal(kind), message, subtype, meta }
            }
        },
    }
}

/// Subtypes given to a constructor are normalised to snake_case.
pub open spec fn snaked(subtype: Option<&str>) -> Option<Seq<char>> {
    match subtype {
        Option::None => Option::None,
        Option::Some(s) => Option::Some(crate::strutil::snake_case_view(s@)),
    }
}

fn snake_opt(subtype: Option<&str>) -> (r: Option<String>)
    ensures
        opt_str_view(r) == snaked(subtype),
{
    match subtype {
        Option::None => Option::None,
        Option::Some(s) => Option::Some(crate::strutil::snake_case(s)),
    }
}

impl InternalError {
    /// Structurally identical copy.
    pub fn duplicate(&self) -> (r: Self)
        ensures
            iview(r) == iview(*self),
    {
        let (kind, message, subtype, meta) = self.kind_only();
        let m2 = match meta {
            Option::None => Option::None,
            Option::Some(v) => Option::Some(v.duplicate()),
        };
        let s2 = match subtype {
            Option::None => Option::None,
            Option::Some(s) => Option::Some(s.clone()),
        };
        InternalError::assemble(kind, message.clone(), s2, m2)
    }

    pub fn unknown(message: &str, subtype: Option<&str>) -> (r: PicaError)
        ensures
            pview(r) == (ErrView::Int {
                kind: InternalKind::Unknown,
                message: message@,
                subtype: snaked(subtype),
                meta: Option::None,
            }),
    {
        PicaError::Internal(
            InternalError::UnknownError {
                message: message.to_owned(),
                subtype: snake_opt(subtype),
                meta: Option::None,
            },
        )
    }

    pub fn unique_field_violation(message: &str, subtype: Option<&str>) -> (r: PicaError)
        ensures
            pview(r) == (ErrView::Int {
                kind: InternalKind::UniqueFieldViolation,
                message: message@,
                subtype: snaked(subtype),
                meta: Option::None,
            }),
    {
        PicaError::Internal(
            InternalError::UniqueFieldViolation {
                message: message.to_owned(),
                subtype: snake_opt(subtype),
                meta: Option::None,
            },
        )
    }

    pub fn timeout(message: &str, subtype: Option<&str>) -> (r: PicaError)
        ensures
            pview(r) == (ErrView::Int {
                kind: InternalKind::Timeout,
                message: message@,
                subtype: snaked(subtype),
                meta: Option::None,
            }),
    {
        PicaError::Internal(
            InternalError::Timeout {
                message: message.to_owned(),
                subtype: snake_opt(subtype),
                meta: Option::None,
            },
        )
    }

    pub fn script_error(message: &str, subtype: Option<&str>) -> (r: PicaError)
        ensures
            pview(r) == (ErrView::Int {
                kind: InternalKind::ScriptError,
                message: message@,
                subtype: snaked(subtype),
                meta: Option::None,
            }),
    {
        PicaError::Internal(
            InternalError::ScriptError {
                message: message.to_owned(),
                subtype: snake_opt(subtype),
                meta: Option::None,
            },
        )
    }

    pub fn serialize_error(message: &str, subtype: Option<&str>) -> (r: PicaError)
        ensures
            pview(r) == (ErrView::Int {
                kind: InternalKind::SerializeError,
                message: message@,
                subtype: snaked(subtype),
                meta: Option::None,
            }),
    {
        PicaError::Internal(
            InternalError::SerializeError {
                message: message.to_owned(),
                subtype: snake_opt(subtype),
                meta: Option::None,
            },
        )
    }

    pub fn deserialize_error(message: &str, subtype: Option<&str>) -> (r: PicaError)
        ensures
            pview(r) == (ErrView::Int {
                kind: InternalKind::DeserializeError,
                message: message@,
                subtype: snaked(subtype),
                meta: Option::None,
            }),
    {
        PicaError::Internal(
            InternalError::DeserializeError {
                message: message.to_owned(),
                subtype: snake_opt(subtype),
                meta: Option::None,
            },
        )
    }

    pub fn configuration_error(message: &str, subtype: Option<&str>) -> (r: PicaError)
        ensures
            pview(r) == (ErrView::Int {
                kind: InternalKind::ConfigurationError,
                message: message@,
                subtype: snaked(subtype),
                meta: Option::None,
            }),
    {
        PicaError::Internal(
            InternalError::ConfigurationError {
                message: message.to_owned(),
                subtype: snake_opt(subtype),
                meta: Option::None,
            },
        )
    }

    pub fn encryption_error(message: &str, subtype: Option<&str>) -> (r: PicaError)
        ensures
            pview(r) == (ErrView::Int {
                kind: InternalKind::EncryptionError,
                message: message@,
                subtype: snaked(subtype),
                meta: Option::None,
            }),
    {
        PicaError::Internal(
            InternalError::EncryptionError {
                message: message.to_owned(),
                subtype: snake_opt(subtype),
                meta: Option::None,
            },
        )
    }

    pub fn decryption_error(message: &str, subtype: Option<&str>) -> (r: PicaError)
        ensures
            pview(r) == (ErrView::Int {
                kind: InternalKind::DecryptionError,
                message: message@,
                subtype: snaked(subtype),
                meta: Option::None,
            }),
    {
        PicaError::Internal(
            InternalError::DecryptionError {
                message: message.to_owned(),
                subtype: snake_opt(subtype),
                meta: Option::None,
            },
        )
    }

    pub fn connection_error(message: &str, subtype: Option<&str>) -> (r: PicaError)
        ensures
            pview(r) == (ErrView::Int {
                kind: InternalKind::ConnectionError,
                message: message@,
                subtype: snaked(subtype),
                meta: Option::None,
            }),
    {
        PicaError::Internal(
            InternalError::ConnectionError {
                message: message.to_owned(),
                subtype: snake_opt(subtype),
                meta: Option::None,
            },
        )
    }

    pub fn io_err(message: &str, subtype: Option<&str>) -> (r: PicaError)
        ensures
            pview(r) == (ErrView::Int {
                kind: InternalKind::IOErr,
                message: message@,
                subtype: snaked(subtype),
                meta: Option::None,
            }),
    {
        PicaError::Internal(
            InternalError::IOErr {
                message: message.to_owned(),
                subtype: snake_opt(subtype),
                meta: Option::None,
            },
        )
    }

    pub fn key_not_found(message: &str, subtype: Option<&str>) -> (r: PicaError)
        ensures
            pview(r) == (ErrView::Int {
                kind: InternalKind::KeyNotFound,
                message: message@,
                subtype: snaked(subtype),
                meta: Option::None,
            }),
    {
        PicaError::Internal(
            InternalError::KeyNotFound {
                message: message.to_owned(),
                subtype: snake_opt(subtype),
                meta: Option::None,
            },
        )
    }

    pub fn invalid_argument(message: &str, subtype: Option<&str>) -> (r: PicaError)
        ensures
            pview(r) == (ErrView::Int {
                kind: InternalKind::InvalidArgument,
                message: message@,
                subtype: snaked(subtype),
                meta: Option::None,
            }),
    {
        PicaError::Internal(
            InternalError::InvalidArgument {
                message: message.to_owned(),
                subtype: snake_opt(subtype),
                meta: Option::None,
            },
        )
    }
}

impl ApplicationError {
    /// Structurally identical copy.
    pub fn duplicate(&self) -> (r: Self)
        ensures
            aview(r) == aview(*self),
    {
        let (kind, message, subtype, meta) = self.kind_only();
        let m2 = match meta {
            Option::None => Option::None,
            Option::Some(v) => Option::Some(v.duplicate()),
        };
        let s2 = match subtype {
            Option::None => Option::None,
            Option::Some(s) => Option::Some(s.clone()),
        };
        ApplicationError::assemble(kind, message.clone(), s2, m2)
    }

    pub fn bad_request(message: &str, subtype: Option<&str>) -> (r: PicaError)
        ensures
            pview(r) == (ErrView::App {
                kind: ApplicationKind::BadRequest,
                message: message@,
                subtype: snaked(subtype),
                meta: Option::None,
            }),
    {
        PicaError::Application(
            ApplicationError::BadRequest {
                message: message.to_owned(),
                subtype: snake_opt(subtype),
                meta: Option::None,
            },
        )
    }

    pub fn conflict(message: &str, subtype: Option<&str>) -> (r: PicaError)
        ensures
            pview(r) == (ErrView::App {
                kind: ApplicationKind::Conflict,
                message: message@,
                subtype: snaked(subtype),
                meta: Option::None,
            }),
    {
        PicaError::Application(
            ApplicationError::Conflict {
                message: message.to_owned(),
                subtype: snake_opt(subtype),
                meta: Option::None,
            },
        )
    }

    pub fn forbidden(message: &str, subtype: Option<&str>) -> (r: PicaError)
        ensures
            pview(r) == (ErrView::App {
                kind: ApplicationKind::Forbidden,
                message: message@,
                subtype: snaked(subtype),
                meta: Option::None,
            }),
    {
        PicaError::Application(
            ApplicationError::Forbidden {
                message: message.to_owned(),
                subtype: snake_opt(subtype),
                meta: Option::None,
            },
        )
    }

    pub fn internal_server_error(message: &str, subtype: Option<&str>) -> (r: PicaError)
        ensures
            pview(r) == (ErrView::App {
                kind: ApplicationKind::InternalServerError,
                message: message@,
                subtype: snaked(subtype),
                meta: Option::None,
            }),
    {
        PicaError::Application(
            ApplicationError::InternalServerError {
                message: message.to_owned(),
                subtype: snake_opt(subtype),
                meta: Option::None,
            },
        )
    }

    pub fn method_not_allowed(message: &str, subtype: Option<&str>) -> (r: PicaError)
        ensures
            pview(r) == (ErrView::App {
                kind: ApplicationKind::MethodNotAllowed,
                message: message@,
                subtype: snaked(subtype),
                meta: Option::None,
            }),
    {
        PicaError::Application(
            ApplicationError::MethodNotAllowed {
                message: message.to_owned(),
                subtype: snake_opt(subtype),
                meta: Option::None,
            },
        )
    }

    pub fn not_found(message: &str, subtype: Option<&str>) -> (r: PicaError)
        ensures
            pview(r) == (ErrView::App {
                kind: ApplicationKind::NotFound,
                message: message@,
                subtype: snaked(subtype),
                meta: Option::None,
            }),
    {
        PicaError::Application(
            ApplicationError::NotFound {
                message: message.to_owned(),
                subtype: snake_opt(subtype),
                meta: Option::None,
            },
        )
    }

    pub fn not_implemented(message: &str, subtype: Option<&str>) -> (r: PicaError)
        ensures
            pview(r) == (ErrView::App {
                kind: ApplicationKind::NotImplemented,
                message: message@,
                subtype: snaked(subtype),
                meta: Option::None,
            }),
    {
        PicaError::Application(
            ApplicationError::NotImplemented {
                message: message.to_owned(),
                subtype: snake_opt(subtype),
                meta: Option::None,
            },
        )
    }

    pub fn failed_dependency(message: &str, subtype: Option<&str>) -> (r: PicaError)
        ensures
            pview(r) == (ErrView::App {
                kind: ApplicationKind::FailedDependency,
                message: message@,
                subtype: snaked(subtype),
                meta: Option::None,
            }),
    {
        PicaError::Application(
            ApplicationError::FailedDependency {
                message: message.to_owned(),
                subtype: snake_opt(subtype),
                meta: Option::None,
            },
        )
    }

    pub fn service_unavailable(message: &str, subtype: Option<&str>) -> (r: PicaError)
        ensures
            pview(r) == (ErrView::App {
                kind: ApplicationKind::ServiceUnavailable,
                message: message@,
                subtype: snaked(subtype),
                meta: Option::None,
            }),
    {
        PicaError::Application(
            ApplicationError::ServiceUnavailable {
                message: message.to_owned(),
                subtype: snake_opt(subtype),
                meta: Option::None,
            },
        )
    }

    pub fn too_many_requests(message: &str, subtype: Option<&str>) -> (r: PicaError)
        ensures
            pview(r) == (ErrView::App {
                kind: ApplicationKind::TooManyRequests,
                message: message@,
                subtype: snaked(subtype),
                meta: Option::None,
            }),
    {
        PicaError::Application(
            ApplicationError::TooManyRequests {
                message: message.to_owned(),
                subtype: snake_opt(subtype),
                meta: Option::None,
            },
        )
    }

    pub fn unauthorized(message: &str, subtype: Option<&str>) -> (r: PicaError)
        ensures
            pview(r) == (ErrView::App {
                kind: ApplicationKind::Unauthorized,
                message: message@,
                subtype: snaked(subtype),
                meta: Option::None,
            }),
    {
        PicaError::Application(
            ApplicationError::Unauthorized {
                message: message.to_owned(),
                subtype: snake_opt(subtype),
                meta: Option::None,
            },
        )
    }

    pub fn unprocessable_entity(message: &str, subtype: Option<&str>) -> (r: PicaError)
        ensures
            pview(r) == (ErrView::App {
                kind: ApplicationKind::UnprocessableEntity,
                message: message@,
                subtype: snaked(subtype),
                meta: Option::None,
            }),
    {
        PicaError::Application(
            ApplicationError::UnprocessableEntity {
                message: message.to_owned(),
                subtype: snake_opt(subtype),
                meta: Option::None,
            },
        )
    }
}

/// An error of either tier.
#[derive(Debug, PartialEq, Eq)]
pub enum PicaError {
    Internal(InternalError),
    Application(ApplicationError),
}

pub open spec fn pview(e: PicaError) -> ErrView {
    match e {
        PicaError::Internal(i) => iview(i),
        PicaError::Application(a) => aview(a),
    }
}

/// Numeric code of an error model.
pub open spec fn view_code(v: ErrView) -> u16 {
    match v {
        ErrView::Int { kind, .. } => internal_code(kind),
        ErrView::App { kind, .. } => application_code(kind),
    }
}

/// Key text of an error model.
pub open spec fn view_key(v: ErrView) -> Seq<char> {
    match v {
        ErrView::Int { kind, subtype, .. } => internal_key_view(internal_kind_key(kind), subtype),
        ErrView::App { kind, subtype, .. } => application_key_view(
            application_kind_key(kind),
            subtype,
        ),
    }
}

/// Message text of an error model.
pub open spec fn view_message(v: ErrView) -> Seq<char> {
    match v {
        ErrView::Int { message, .. } => message,
        ErrView::App { message, .. } => message,
    }
}

/// Metadata of an error model.
pub open spec fn view_meta(v: ErrView) -> Option<Jv> {
    match v {
        ErrView::Int { meta, .. } => meta,
        ErrView::App { meta, .. } => meta,
    }
}

/// HTTP status of an error model.
pub open spec fn view_status(v: ErrView) -> u16 {
    match v {
        ErrView::Int { kind, .. } => internal_status(kind),
        ErrView::App { kind, .. } => application_status(kind),
    }
}

/// The error model that replaces the metadata with `m`.
pub open spec fn with_meta(v: ErrView, m: Jv) -> ErrView {
    match v {
        ErrView::Int { kind, message, subtype, .. } => ErrView::Int {
            kind,
            message,
            subtype,
            meta: Option::Some(m),
        },
        ErrView::App { kind, message, subtype, .. } => ErrView::App {
            kind,
            message,
            subtype,
            meta: Option::Some(m),
        },
    }
}

/// Name of an internal kind as serialized into the envelope.
pub open spec fn internal_kind_label(k: InternalKind) -> Seq<char> {
    match k {
        InternalKind::Unknown => "UnknownError"@,
        InternalKind::UniqueFieldViolation => "UniqueFieldViolation"@,
        InternalKind::Timeout => "Timeout"@,
        InternalKind::ConnectionError => "ConnectionError"@,
        InternalKind::KeyNotFound => "KeyNotFound"@,
        InternalKind::InvalidArgument => "InvalidArgument"@,
        InternalKind::IOErr => "IOErr"@,
        InternalKind::EncryptionError => "EncryptionError"@,
        InternalKind::DecryptionError => "DecryptionError"@,
        InternalKind::ConfigurationError => "ConfigurationError"@,
        InternalKind::ScriptError => "ScriptError"@,
        InternalKind::SerializeError => "SerializeError"@,
        InternalKind::DeserializeError => "DeserializeError"@,
    }
}

/// Name of an application kind as serialized into the envelope.
pub open spec fn application_kind_label(k: ApplicationKind) -> Seq<char> {
    match k {
        ApplicationKind::BadRequest => "BadRequest"@,
        ApplicationKind::Conflict => "Conflict"@,
        ApplicationKind::Forbidden => "Forbidden"@,
        ApplicationKind::InternalServerError => "InternalServerError"@,
        ApplicationKind::MethodNotAllowed => "MethodNotAllowed"@,
        ApplicationKind::NotFound => "NotFound"@,
        ApplicationKind::NotImplemented => "NotImplemented"@,
        ApplicationKind::FailedDependency => "FailedDependency"@,
        ApplicationKind::ServiceUnavailable => "ServiceUnavailable"@,
        ApplicationKind::TooManyRequests => "TooManyRequests"@,
        ApplicationKind::Unauthorized => "Unauthorized"@,
        ApplicationKind::UnprocessableEntity => "UnprocessableEntity"@,
    }
}

pub open spec fn view_kind_label(v: ErrView) -> Seq<char> {
    match v {
        ErrView::Int { kind, .. } => internal_kind_label(kind),
        ErrView::App { kind, .. } => application_kind_label(kind),
    }
}

/// The JSON body that an error serializes to: its type name, code, HTTP
/// status, key, message, and metadata (JSON null when absent).
pub open spec fn as_json_view(v: ErrView) -> Jv {
    Jv::Obj(
        seq![
            ("type"@, Jv::Str(view_kind_label(v))),
            ("code"@, Jv::Num(view_code(v) as int)),
            ("status"@, Jv::Num(view_status(v) as int)),
            ("key"@, Jv::Str(view_key(v))),
            ("message"@, Jv::Str(view_message(v))),
            (
                "meta"@,
                match view_meta(v) {
                    Option::Some(m) => m,
                    Option::None => Jv::Null,
                },
            ),
        ],
    )
}

/// The application kind that an HTTP status picks directly.
pub open spec fn status_kind(status: u16) -> Option<ApplicationKind> {
    if status == 400 {
        Option::Some(ApplicationKind::BadRequest)
    } else if status == 409 {
        Option::Some(ApplicationKind::Conflict)
    } else if status == 403 {
        Option::Some(ApplicationKind::Forbidden)
    } else if status == 500 {
        Option::Some(ApplicationKind::InternalServerError)
    } else if status == 405 {
        Option::Some(ApplicationKind::MethodNotAllowed)
    } else if status == 404 {
        Option::Some(ApplicationKind::NotFound)
    } else if status == 501 {
        Option::Some(ApplicationKind::NotImplemented)
    } else if status == 424 {
        Option::Some(ApplicationKind::FailedDependency)
    } else if status == 503 {
        Option::Some(ApplicationKind::ServiceUnavailable)
    } else if status == 429 {
        Option::Some(ApplicationKind::TooManyRequests)
    } else if status == 401 {
        Option::Some(ApplicationKind::Unauthorized)
    } else if status == 422 {
        Option::Some(ApplicationKind::UnprocessableEntity)
    } else {
        Option::None
    }
}

/// The error built from an upstream HTTP status: a named application kind
/// where one exists, a bad request for any other client error, and an
/// internal I/O error (with the status folded into the message) otherwise.
pub open spec fn from_err_code_view(status: u16, message: Seq<char>, subtype: Option<
    Seq<char>,
>) -> ErrView {
    match status_kind(status) {
        Option::Some(k) => ErrView::App { kind: k, message, subtype, meta: Option::None },
        Option::None => if 400 <= status < 500 {
            ErrView::App {
                kind: ApplicationKind::BadRequest,
                message,
                subtype,
                meta: Option::None,
            }
        } else {
            ErrView::Int {
                kind: InternalKind::IOErr,
                message: "Unknown error with status code: "@ + crate::strutil::decimal_rep(
                    status as nat,
                ) + ", message: "@ + message,
                subtype,
                meta: Option::None,
            }
        },
    }
}

impl PicaError {
    /// Structurally identical copy.
    pub fn duplicate(&self) -> (r: Self)
        ensures
            pview(r) == pview(*self),
    {
        match self {
            PicaError::Internal(e) => PicaError::Internal(e.duplicate()),
            PicaError::Application(e) => PicaError::Application(e.duplicate()),
        }
    }

    pub fn code(&self) -> (r: ErrorCode)
        ensures
            r.0 == view_code(pview(*self)),
    {
        match self {
            PicaError::Internal(e) => e.code(),
            PicaError::Application(e) => e.code(),
        }
    }

    pub fn key(&self) -> (r: ErrorKey)
        ensures
            r.0@ == view_key(pview(*self)),
    {
        match self {
            PicaError::Internal(e) => e.key(),
            PicaError::Application(e) => e.key(),
        }
    }

    pub fn message(&self) -> (r: ErrorMessage)
        ensures
            r.0@ == view_message(pview(*self)),
    {
        match self {
            PicaError::Internal(e) => e.message(),
            PicaError::Application(e) => e.message(),
        }
    }

    pub fn meta(&self) -> (r: Option<JsonValue>)
        ensures
            opt_jview(r) == view_meta(pview(*self)),
    {
        match self {
            PicaError::Internal(e) => e.meta(),
            PicaError::Application(e) => e.meta(),
        }
    }

    /// The HTTP status this error maps to; total over both tiers.
    pub fn status(&self) -> (r: u16)
        ensures
            r == view_status(pview(*self)),
    {
        match self {
            PicaError::Internal(e) => {
                let (kind, _, _, _) = e.kind_only();
                match kind {
                    InternalKind::UniqueFieldViolation => 409,
                    InternalKind::Timeout => 504,
                    InternalKind::ConnectionError => 502,
                    InternalKind::KeyNotFound => 404,
                    InternalKind::InvalidArgument => 400,
                    InternalKind::SerializeError => 400,
                    InternalKind::DeserializeError => 400,
                    _ => 500,
                }
            },
            PicaError::Application(e) => {
                let (kind, _, _, _) = e.kind_only();
                match kind {
                    ApplicationKind::BadRequest => 400,
                    ApplicationKind::Conflict => 409,
                    ApplicationKind::Forbidden => 403,
                    ApplicationKind::InternalServerError => 500,
                    ApplicationKind::MethodNotAllowed => 405,
                    ApplicationKind::NotFound => 404,
                    ApplicationKind::NotImplemented => 501,
                    ApplicationKind::FailedDependency => 424,
                    ApplicationKind::ServiceUnavailable => 503,
                    ApplicationKind::TooManyRequests => 429,
                    ApplicationKind::Unauthorized => 401,
                    ApplicationKind::UnprocessableEntity => 422,
                }
            },
        }
    }

    /// The error an upstream HTTP status and message translate to.
    pub fn from_err_code(status: u16, message: &str, subtype: Option<&str>) -> (r: Self)
        ensures
            pview(r) == from_err_code_view(status, message@, match subtype {
                Option::None => Option::<Seq<char>>::None,
                Option::Some(s) => Option::Some(s@),
            }),
    {
        let sub: Option<String> = match subtype {
            Option::None => Option::None,
            Option::Some(s) => Option::Some(s.to_owned()),
        };
        let kind: Option<ApplicationKind> = if status == 400 {
            Option::Some(ApplicationKind::BadRequest)
        } else if status == 409 {
            Option::Some(ApplicationKind::Conflict)
        } else if status == 403 {
            Option::Some(ApplicationKind::Forbidden)
        } else if status == 500 {
            Option::Some(ApplicationKind::InternalServerError)
        } else if status == 405 {
            Option::Some(ApplicationKind::MethodNotAllowed)
        } else if status == 404 {
            Option::Some(ApplicationKind::NotFound)
        } else if status == 501 {
            Option::Some(ApplicationKind::NotImplemented)
        } else if status == 424 {
            Option::Some(ApplicationKind::FailedDependency)
        } else if status == 503 {
            Option::Some(ApplicationKind::ServiceUnavailable)
        } else if status == 429 {
            Option::Some(ApplicationKind::TooManyRequests)
        } else if status == 401 {
            Option::Some(ApplicationKind::Unauthorized)
        } else if status == 422 {
            Option::Some(ApplicationKind::UnprocessableEntity)
        } else {
            Option::None
        };
        match kind {
            Option::Some(k) => PicaError::Application(
                ApplicationError::assemble(k, message.to_owned(), sub, Option::None),
            ),
            Option::None => {
                if 400 <= status && status < 500 {
                    PicaError::Application(
                        ApplicationError::BadRequest {
                            message: message.to_owned(),
                            subtype: sub,
                            meta: Option::None,
                        },
                    )
                } else {
                    let mut m = String::from_str("Unknown error with status code: ");
                    let digits = crate::strutil::to_decimal(status as u64);
                    m.append(digits.as_str());
                    m.append(", message: ");
                    m.append(message);
                    PicaError::Internal(
                        InternalError::IOErr { message: m, subtype: sub, meta: Option::None },
                    )
                }
            },
        }
    }

    /// This error, coerced to the application tier.
    pub fn as_application(&self) -> (r: PicaError)
        ensures
            pview(r) == coerce_view(pview(*self)),
    {
        match self {
            PicaError::Application(e) => PicaError::Application(e.duplicate()),
            PicaError::Internal(e) => PicaError::Application(e.duplicate().to_application()),
        }
    }

    /// Replaces the metadata, keeping everything else.
    pub fn set_meta(self, meta: &JsonValue) -> (r: Self)
        ensures
            pview(r) == with_meta(pview(self), jview(*meta)),
    {
        match self {
            PicaError::Internal(e) => PicaError::Internal(e.set_meta(meta.duplicate())),
            PicaError::Application(e) => PicaError::Application(e.set_meta(meta.duplicate())),
        }
    }

    pub fn is_internal(&self) -> (r: bool)
        ensures
            r == (pview(*self) is Int),
    {
        match self {
            PicaError::Internal(_) => true,
            PicaError::Application(_) => false,
        }
    }

    pub fn is_application(&self) -> (r: bool)
        ensures
            r == (pview(*self) is App),
    {
        match self {
            PicaError::Internal(_) => false,
            PicaError::Application(_) => true,
        }
    }

    /// Name of the error's kind, as the envelope's `type` field shows it.
    pub fn kind_label(&self) -> (r: String)
        ensures
            r@ == view_kind_label(pview(*self)),
    {
        match self {
            PicaError::Internal(e) => {
                let (kind, _, _, _) = e.kind_only();
                match kind {
                    InternalKind::Unknown => String::from_str("UnknownError"),
                    InternalKind::UniqueFieldViolation => String::from_str("UniqueFieldViolation"),
                    InternalKind::Timeout => String::from_str("Timeout"),
                    InternalKind::ConnectionError => String::from_str("ConnectionError"),
                    InternalKind::KeyNotFound => String::from_str("KeyNotFound"),
                    InternalKind::InvalidArgument => String::from_str("InvalidArgument"),
                    InternalKind::IOErr => String::from_str("IOErr"),
                    InternalKind::EncryptionError => String::from_str("EncryptionError"),
                    InternalKind::DecryptionError => String::from_str("DecryptionError"),
                    InternalKind::ConfigurationError => String::from_str("ConfigurationError"),
                    InternalKind::ScriptError => String::from_str("ScriptError"),
                    InternalKind::SerializeError => String::from_str("SerializeError"),
                    InternalKind::DeserializeError => String::from_str("DeserializeError"),
                }
            },
            PicaError::Application(e) => {
                let (kind, _, _, _) = e.kind_only();
                match kind {
                    ApplicationKind::BadRequest => String::from_str("BadRequest"),
                    ApplicationKind::Conflict => String::from_str("Conflict"),
                    ApplicationKind::Forbidden => String::from_str("Forbidden"),
                    ApplicationKind::InternalServerError => String::from_str("InternalServerError"),
                    ApplicationKind::MethodNotAllowed => String::from_str("MethodNotAllowed"),
                    ApplicationKind::NotFound => String::from_str("NotFound"),
                    ApplicationKind::NotImplemented => String::from_str("NotImplemented"),
                    ApplicationKind::FailedDependency => String::from_str("FailedDependency"),
                    ApplicationKind::ServiceUnavailable => String::from_str("ServiceUnavailable"),
                    ApplicationKind::TooManyRequests => String::from_str("TooManyRequests"),
                    ApplicationKind::Unauthorized => String::from_str("Unauthorized"),
                    ApplicationKind::UnprocessableEntity => String::from_str("UnprocessableEntity"),
                }
            },
        }
    }

    /// The JSON object a response body shows for this error.
    pub fn as_json(&self) -> (r: JsonValue)
        ensures
            jview(r) == as_json_view(pview(*self)),
    {
        let mut fields: Vec<(String, JsonValue)> = Vec::new();
        fields.push((String::from_str("type"), JsonValue::Str(self.kind_label())));
        fields.push((String::from_str("code"), JsonValue::Num(self.code().as_u16() as i64)));
        fields.push((String::from_str("status"), JsonValue::Num(self.status() as i64)));
        fields.push((String::from_str("key"), JsonValue::Str(self.key().to_string())));
        fields.push((String::from_str("message"), JsonValue::Str(self.message().to_string())));
        let meta_v = match self.meta() {
            Option::Some(v) => v,
            Option::None => JsonValue::Null,
        };
        fields.push((String::from_str("meta"), meta_v));
        let r = JsonValue::Obj(fields);
        proof {
            broadcast use {crate::json::lemma_jview_fields_len, crate::json::lemma_jview_fields_index};

            assert(crate::json::jview_fields(r->Obj_0@) =~~= match as_json_view(pview(*self)) {
                Jv::Obj(f) => f,
                _ => Seq::empty(),
            });
        }
        r
    }

    /// Recovery of an error that travelled through an opaque wrapper:
    /// where the wrapper still held one of ours it comes back unchanged,
    /// and otherwise the wrapper's message becomes an unknown error.
    pub fn from_wrapped(found: Option<PicaError>, message: &str) -> (r: PicaError)
        ensures
            match found {
                Option::Some(e) => pview(r) == pview(e),
                Option::None => pview(r) == (ErrView::Int {
                    kind: InternalKind::Unknown,
                    message: message@,
                    subtype: Option::None,
                    meta: Option::None,
                }),
            },
    {
        match found {
            Option::Some(e) => e,
            Option::None => PicaError::Internal(
                InternalError::UnknownError {
                    message: message.to_owned(),
                    subtype: Option::None,
                    meta: Option::None,
                },
            ),
        }
    }
}

} // verus!

