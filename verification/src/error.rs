//! The errors the API answers with: an HTTP status and a machine-readable code.

use vstd::prelude::*;
use vstd::std_specs::convert::FromSpecImpl;

verus! {

pub const STATUS_OK: u16 = 200;

pub const STATUS_CREATED: u16 = 201;

pub const STATUS_NO_CONTENT: u16 = 204;

pub const STATUS_BAD_REQUEST: u16 = 400;

pub const STATUS_UNAUTHORIZED: u16 = 401;

pub const STATUS_FORBIDDEN: u16 = 403;

pub const STATUS_NOT_FOUND: u16 = 404;

pub const STATUS_CONFLICT: u16 = 409;

pub const STATUS_PAYLOAD_TOO_LARGE: u16 = 413;

pub const STATUS_INTERNAL_SERVER_ERROR: u16 = 500;

/// A database operation failed (the cause is logged, not answered).
#[derive(Clone, Copy, Debug, PartialEq, Eq, Structural)]
pub struct DbError;

/// The outcome of a database operation.
pub type DbResult<T> = Result<T, DbError>;

/// A successful answer's status with its body, or an error answer.
pub type ApiResponse<T> = Result<(u16, T), ApiError>;

/// Machine-readable reason attached to every error answer.
#[derive(Clone, Debug, PartialEq, Eq)]
pub enum InternalErrorCode {
    AccountNotEnabled,
    InsufficientRole,
    Unauthorized,
    TokenExpired,
    TokenRevoked,
    TokenNotFound,
    TokenAlreadyRevoked,
    CannotRevokeAllTokens,
    InvalidUsernameOrPassword,
    HashPasswordVerify,
    PasswordHash,
    UsernameTooShort,
    UsernameTooLong,
    UsernameContainsInvalidChars,
    UsernameTaken,
    NoSuchUserFound,
    NoSuchUserFoundError,
    UserAlreadyEnabled,
    FileTooLarge,
    FileNotFound,
    FileDeleted,
    FileNotInStorage,
    FileAlreadyExists,
    MismatchedFileHash,
    StorageBackendError,
    BadRequest,
    InternalDBError,
    InternalError,
    JsonRejection(String),
    PathRejection(String),
    QueryRejection(String),
}

/// An error answer: HTTP status code and reason.
#[derive(Clone, Debug, PartialEq, Eq)]
pub struct ApiError(pub u16, pub InternalErrorCode);

impl From<(u16, InternalErrorCode)> for ApiError {
    fn from(value: (u16, InternalErrorCode)) -> (r: Self) {
        ApiError(value.0, value.1)
    }
}

impl FromSpecImpl<(u16, InternalErrorCode)> for ApiError {
    open spec fn obeys_from_spec() -> bool {
        true
    }

    open spec fn from_spec(value: (u16, InternalErrorCode)) -> ApiError {
        ApiError(value.0, value.1)
    }
}

/// Builds an error answer from its status and reason.
pub fn err(status: u16, code: InternalErrorCode) -> (e: ApiError)
    ensures
        e.0 == status,
        e.1 == code,
{
    ApiError(status, code)
}

/// A database operation failed; the answer is always the same.
pub fn db_error() -> (e: ApiError)
    ensures
        e.0 == STATUS_INTERNAL_SERVER_ERROR,
        e.1 == InternalErrorCode::InternalDBError,
{
    ApiError(STATUS_INTERNAL_SERVER_ERROR, InternalErrorCode::InternalDBError)
}

/// An operation whose answer is `204 No Content` once saved; a failed save
/// is `500`.
pub fn no_content_once_saved(saved: DbResult<()>) -> (r: ApiResponse<()>)
    ensures
        match saved {
            Ok(()) => r == Ok::<(u16, ()), ApiError>((STATUS_NO_CONTENT, ())),
            Err(_) => r == Err::<(u16, ()), ApiError>(
                ApiError(STATUS_INTERNAL_SERVER_ERROR, InternalErrorCode::InternalDBError),
            ),
        },
{
    match saved {
        Ok(()) => Ok((STATUS_NO_CONTENT, ())),
        Err(_) => Err(db_error()),
    }
}

/// How a JSON body was refused by the extractor.
pub enum JsonRejectionKind {
    /// The body is JSON of the wrong shape.
    DataError,
    /// The body is not JSON.
    SyntaxError,
    /// The request lacks `Content-Type: application/json`.
    MissingContentType,
    /// Any other refusal; it carries its own status.
    Other,
}

/// How a path parameter was refused by the extractor.
pub enum PathRejectionKind {
    FailedToDeserialize,
    Other,
}

/// How a query string was refused by the extractor.
pub enum QueryRejectionKind {
    FailedToDeserialize,
    Other,
}

/// The message for a request without a JSON content type.
pub open spec fn missing_json_content_type_text() -> Seq<char> {
    "Expected Content-Type: application/json"@
}

impl ApiError {
    /// The answer to a refused JSON body: malformed or mistyped bodies and a
    /// missing content type are bad requests; other refusals keep their
    /// status. `detail` is the refusal's own text.
    pub fn from_json_rejection(kind: JsonRejectionKind, other_status: u16, detail: String) -> (e:
        ApiError)
        ensures
            e.0 == (if kind is Other {
                other_status
            } else {
                STATUS_BAD_REQUEST
            }),
            e.1 matches InternalErrorCode::JsonRejection(d) && d@ == (if kind is MissingContentType {
                missing_json_content_type_text()
            } else {
                detail@
            }),
    {
        match kind {
            JsonRejectionKind::DataError => err(
                STATUS_BAD_REQUEST,
                InternalErrorCode::JsonRejection(detail),
            ),
            JsonRejectionKind::SyntaxError => err(
                STATUS_BAD_REQUEST,
                InternalErrorCode::JsonRejection(detail),
            ),
            JsonRejectionKind::MissingContentType => err(
                STATUS_BAD_REQUEST,
                InternalErrorCode::JsonRejection(
                    String::from_str("Expected Content-Type: application/json"),
                ),
            ),
            JsonRejectionKind::Other => err(other_status, InternalErrorCode::JsonRejection(detail)),
        }
    }

    /// The answer to a refused path parameter.
    pub fn from_path_rejection(kind: PathRejectionKind, other_status: u16, detail: String) -> (e:
        ApiError)
        ensures
            e.0 == (if kind is Other {
                other_status
            } else {
                STATUS_BAD_REQUEST
            }),
            e.1 matches InternalErrorCode::PathRejection(d) && d@ == detail@,
    {
        match kind {
            PathRejectionKind::FailedToDeserialize => err(
                STATUS_BAD_REQUEST,
                InternalErrorCode::PathRejection(detail),
            ),
            PathRejectionKind::Other => err(other_status, InternalErrorCode::PathRejection(detail)),
        }
    }

    /// The answer to a refused query string.
    pub fn from_query_rejection(kind: QueryRejectionKind, other_status: u16, detail: String) -> (e:
        ApiError)
        ensures
            e.0 == (if kind is Other {
                other_status
            } else {
                STATUS_BAD_REQUEST
            }),
            e.1 matches InternalErrorCode::QueryRejection(d) && d@ == detail@,
    {
        match kind {
            QueryRejectionKind::FailedToDeserialize => err(
                STATUS_BAD_REQUEST,
                InternalErrorCode::QueryRejection(detail),
            ),
            QueryRejectionKind::Other => err(
                other_status,
                InternalErrorCode::QueryRejection(detail),
            ),
        }
    }
}

} // verus!
