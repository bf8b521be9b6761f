//! Mapping of document-store driver failures onto the error taxonomy.
//! The driver's error kinds are modelled as plain data: the variant, the
//! message, and the server error code where the driver reports one.
use crate::error::{snaked, ErrView, InternalKind, PicaError, pview};
use crate::strutil::{join, join_view};
use vstd::prelude::*;

verus! {

/// What a failed store operation reports, reduced to what the mapping reads.
#[derive(Debug, PartialEq, Eq)]
pub enum StoreErrorKind {
    InvalidArgument { message: String },
    Authentication { message: String },
    BsonDeserialization { message: String },
    BsonSerialization { message: String },
    BulkWrite { messages: Vec<String> },
    Command { code: i32, message: String },
    DnsResolve { message: String },
    GridFs,
    InternalFailure { message: String },
    Io { message: String },
    ConnectionPoolCleared { message: String },
    InvalidResponse { message: String },
    ServerSelection { message: String },
    SessionsNotSupported,
    InvalidTlsConfig { message: String },
    WriteConcern { code: i32, message: String },
    WriteFault { code: i32, message: String },
    WriteOther,
    Transaction { message: String },
    IncompatibleServer { message: String },
    MissingResumeToken,
    Custom,
    Shutdown,
    Other,
}

/// The server's code for a duplicate-key write.
pub const DUPLICATE_KEY_CODE: i32 = 11000;

/// The error each store failure maps to. A write rejected with the
/// duplicate-key code becomes a unique-field violation; everything else
/// keeps its message under the matching internal kind.
pub open spec fn store_error_view(e: StoreErrorKind) -> ErrView {
    match e {
        StoreErrorKind::InvalidArgument { message } => ErrView::Int {
            kind: InternalKind::InvalidArgument,
            message: message@,
            subtype: Option::None,
            meta: Option::None,
        },
        StoreErrorKind::Authentication { message } => ErrView::Int {
            kind: InternalKind::ConnectionError,
            message: message@,
            subtype: snaked(Option::Some("Authentication failed")),
            meta: Option::None,
        },
        StoreErrorKind::BsonDeserialization { message } => ErrView::Int {
            kind: InternalKind::InvalidArgument,
            message: message@,
            subtype: snaked(Option::Some("BSON deserialization error")),
            meta: Option::None,
        },
        StoreErrorKind::BsonSerialization { message } => ErrView::Int {
            kind: InternalKind::InvalidArgument,
            message: message@,
            subtype: snaked(Option::Some("BSON serialization error")),
            meta: Option::None,
        },
        StoreErrorKind::BulkWrite { messages } => ErrView::Int {
            kind: InternalKind::Unknown,
            message: join_view(messages@.map_values(|s: String| s@), ", "@),
            subtype: snaked(Option::Some("Bulk write error")),
            meta: Option::None,
        },
        StoreErrorKind::Command { code, message } => if code == DUPLICATE_KEY_CODE {
            ErrView::Int {
                kind: InternalKind::UniqueFieldViolation,
                message: message@,
                subtype: snaked(Option::Some("A document with the same unique key already exists")),
                meta: Option::None,
            }
        } else {
            ErrView::Int {
                kind: InternalKind::Unknown,
                message: message@,
                subtype: snaked(Option::Some("Command error")),
                meta: Option::None,
            }
        },
        StoreErrorKind::DnsResolve { message } => ErrView::Int {
            kind: InternalKind::ConnectionError,
            message: message@,
            subtype: snaked(Option::Some("DNS resolution failed")),
            meta: Option::None,
        },
        StoreErrorKind::GridFs => ErrView::Int {
            kind: InternalKind::Unknown,
            message: "GridFS error"@,
            subtype: snaked(Option::Some("An error occurred while interacting with GridFS")),
            meta: Option::None,
        },
        StoreErrorKind::InternalFailure { message } => ErrView::Int {
            kind: InternalKind::Unknown,
            message: message@,
            subtype: snaked(Option::Some("Internal error")),
            meta: Option::None,
        },
        StoreErrorKind::Io { message } => ErrView::Int {
            kind: InternalKind::IOErr,
            message: message@,
            subtype: Option::None,
            meta: Option::None,
        },
        StoreErrorKind::ConnectionPoolCleared { message } => ErrView::Int {
            kind: InternalKind::ConnectionError,
            message: message@,
            subtype: snaked(Option::Some("Connection pool cleared")),
            meta: Option::None,
        },
        StoreErrorKind::InvalidResponse { message } => ErrView::Int {
            kind: InternalKind::InvalidArgument,
            message: message@,
            subtype: snaked(Option::Some("Invalid response")),
            meta: Option::None,
        },
        StoreErrorKind::ServerSelection { message } => ErrView::Int {
            kind: InternalKind::ConnectionError,
            message: message@,
            subtype: snaked(Option::Some("Server selection failed")),
            meta: Option::None,
        },
        StoreErrorKind::SessionsNotSupported => ErrView::Int {
            kind: InternalKind::InvalidArgument,
            message: "Sessions not supported"@,
            subtype: Option::None,
            meta: Option::None,
        },
        StoreErrorKind::InvalidTlsConfig { message } => ErrView::Int {
            kind: InternalKind::ConnectionError,
            message: message@,
            subtype: snaked(Option::Some("Invalid TLS configuration")),
            meta: Option::None,
        },
        StoreErrorKind::WriteConcern { code, message } => if code == DUPLICATE_KEY_CODE {
            ErrView::Int {
                kind: InternalKind::UniqueFieldViolation,
                message: message@,
                subtype: snaked(Option::Some("A document with the same unique key already exists")),
                meta: Option::None,
            }
        } else {
            ErrView::Int {
                kind: InternalKind::Unknown,
                message: message@,
                subtype: snaked(Option::Some("Write concern error")),
                meta: Option::None,
            }
        },
        StoreErrorKind::WriteFault { code, message } => if code == DUPLICATE_KEY_CODE {
            ErrView::Int {
                kind: InternalKind::UniqueFieldViolation,
                message: message@,
                subtype: snaked(Option::Some("A document with the same unique key already exists")),
                meta: Option::None,
            }
        } else {
            ErrView::Int {
                kind: InternalKind::Unknown,
                message: message@,
                subtype: snaked(Option::Some("Write error")),
                meta: Option::None,
            }
        },
        StoreErrorKind::WriteOther => ErrView::Int {
            kind: InternalKind::Unknown,
            message: "Write error"@,
            subtype: snaked(Option::Some("An error occurred while writing")),
            meta: Option::None,
        },
        StoreErrorKind::Transaction { message } => ErrView::Int {
            kind: InternalKind::Unknown,
            message: message@,
            subtype: snaked(Option::Some("Transaction error")),
            meta: Option::None,
        },
        StoreErrorKind::IncompatibleServer { message } => ErrView::Int {
            kind: InternalKind::ConnectionError,
            message: message@,
            subtype: snaked(Option::Some("Incompatible server")),
            meta: Option::None,
        },
        StoreErrorKind::MissingResumeToken => ErrView::Int {
            kind: InternalKind::InvalidArgument,
            message: "Missing resume token"@,
            subtype: Option::None,
            meta: Option::None,
        },
        StoreErrorKind::Custom => ErrView::Int {
            kind: InternalKind::Unknown,
            message: "Unknown error"@,
            subtype: snaked(Option::Some("An error occurred with the MongoDB driver")),
            meta: Option::None,
        },
        StoreErrorKind::Shutdown => ErrView::Int {
            kind: InternalKind::Unknown,
            message: "Shutdown error"@,
            subtype: snaked(Option::Some("The MongoDB driver has shut down")),
            meta: Option::None,
        },
        StoreErrorKind::Other => ErrView::Int {
            kind: InternalKind::Unknown,
            message: "Unknown error"@,
            subtype: snaked(Option::Some("An unknown error occurred")),
            meta: Option::None,
        },
    }
}

/// Maps a store failure onto the taxonomy, as [`store_error_view`] says.
pub fn from_store_error(e: StoreErrorKind) -> (r: PicaError)
    ensures
        pview(r) == store_error_view(e),
{
    match e {
        StoreErrorKind::InvalidArgument { message } => crate::error::InternalError::invalid_argument(
            message.as_str(),
            Option::None,
        ),
        StoreErrorKind::Authentication { message } => crate::error::InternalError::connection_error(
            message.as_str(),
            Option::Some("Authentication failed"),
        ),
        StoreErrorKind::BsonDeserialization { message } => {
            crate::error::InternalError::invalid_argument(
                message.as_str(),
                Option::Some("BSON deserialization error"),
            )
        },
        StoreErrorKind::BsonSerialization { message } => {
            crate::error::InternalError::invalid_argument(
                message.as_str(),
                Option::Some("BSON serialization error"),
            )
        },
        StoreErrorKind::BulkWrite { messages } => {
            let joined = join(&messages, ", ");
            crate::error::InternalError::unknown(joined.as_str(), Option::Some("Bulk write error"))
        },
        StoreErrorKind::Command { code, message } => if code == DUPLICATE_KEY_CODE {
            crate::error::InternalError::unique_field_violation(
                message.as_str(),
                Option::Some("A document with the same unique key already exists"),
            )
        } else {
            crate::error::InternalError::unknown(message.as_str(), Option::Some("Command error"))
        },
        StoreErrorKind::DnsResolve { message } => crate::error::InternalError::connection_error(
            message.as_str(),
            Option::Some("DNS resolution failed"),
        ),
        StoreErrorKind::GridFs => crate::error::InternalError::unknown(
            "GridFS error",
            Option::Some("An error occurred while interacting with GridFS"),
        ),
        StoreErrorKind::InternalFailure { message } => crate::error::InternalError::unknown(
            message.as_str(),
            Option::Some("Internal error"),
        ),
        StoreErrorKind::Io { message } => crate::error::InternalError::io_err(
            message.as_str(),
            Option::None,
        ),
        StoreErrorKind::ConnectionPoolCleared { message } => {
            crate::error::InternalError::connection_error(
                message.as_str(),
                Option::Some("Connection pool cleared"),
            )
        },
        StoreErrorKind::InvalidResponse { message } => {
            crate::error::InternalError::invalid_argument(
                message.as_str(),
                Option::Some("Invalid response"),
            )
        },
        StoreErrorKind::ServerSelection { message } => {
            crate::error::InternalError::connection_error(
                message.as_str(),
                Option::Some("Server selection failed"),
            )
        },
        StoreErrorKind::SessionsNotSupported => crate::error::InternalError::invalid_argument(
            "Sessions not supported",
            Option::None,
        ),
        StoreErrorKind::InvalidTlsConfig { message } => {
            crate::error::InternalError::connection_error(
                message.as_str(),
                Option::Some("Invalid TLS configuration"),
            )
        },
        StoreErrorKind::WriteConcern { code, message } => if code == DUPLICATE_KEY_CODE {
            crate::error::InternalError::unique_field_violation(
                message.as_str(),
                Option::Some("A document with the same unique key already exists"),
            )
        } else {
            crate::error::InternalError::unknown(
                message.as_str(),
                Option::Some("Write concern error"),
            )
        },
        StoreErrorKind::WriteFault { code, message } => if code == DUPLICATE_KEY_CODE {
            crate::error::InternalError::unique_field_violation(
                message.as_str(),
                Option::Some("A document with the same unique key already exists"),
            )
        } else {
            crate::error::InternalError::unknown(message.as_str(), Option::Some("Write error"))
        },
        StoreErrorKind::WriteOther => crate::error::InternalError::unknown(
            "Write error",
            Option::Some("An error occurred while writing"),
        ),
        StoreErrorKind::Transaction { message } => crate::error::InternalError::unknown(
            message.as_str(),
            Option::Some("Transaction error"),
        ),
        StoreErrorKind::IncompatibleServer { message } => {
            crate::error::InternalError::connection_error(
                message.as_str(),
                Option::Some("Incompatible server"),
            )
        },
        StoreErrorKind::MissingResumeToken => crate::error::InternalError::invalid_argument(
            "Missing resume token",
            Option::None,
        ),
        StoreErrorKind::Custom => crate::error::InternalError::unknown(
            "Unknown error",
            Option::Some("An error occurred with the MongoDB driver"),
        ),
        StoreErrorKind::Shutdown => crate::error::InternalError::unknown(
            "Shutdown error",
            Option::Some("The MongoDB driver has shut down"),
        ),
        StoreErrorKind::Other => crate::error::InternalError::unknown(
            "Unknown error",
            Option::Some("An unknown error occurred"),
        ),
    }
}

} // verus!
