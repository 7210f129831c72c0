//! Errors of user management and authentication, the application-level
//! error they map to, and the HTTP status and body each one is answered with.
use vstd::prelude::*;

use crate::text::{concat2, contains_text, owned, seq_contains};

verus! {

/// Failure of a user-management operation.
#[derive(Debug)]
pub enum DomainError {
    InvalidEmail,
    UserNotFound,
    EmailExists,
    InvalidCredentials,
    UserInactive,
    TokenExpired,
    TokenRevoked,
    InvalidAuthCode,
    PkceFailed,
    Database(String),
}

/// Application-level error, each kind carrying its detail text.
#[derive(Debug)]
pub enum AppError {
    NotFound(String),
    BadRequest(String),
    Unauthorized(String),
    Forbidden(String),
    Conflict(String),
    Database(String),
    Internal(String),
}

/// An application error as the HTTP layer answers it.
#[derive(Debug)]
pub struct ApiError(pub AppError);

/// The body of an error answer.
#[derive(Debug)]
pub struct ErrorResponse {
    pub error: String,
    pub message: String,
}

/// What the database layer reported, as plain values: a lookup that found no
/// record (with its detail), or any other failure (with its full message).
#[derive(Debug)]
pub enum DbFailure {
    RecordNotFound(String),
    Other(String),
}

/// The kind of an application error and its detail text, as a pair.
pub open spec fn app_error_parts(e: AppError) -> (int, Seq<char>) {
    match e {
        AppError::NotFound(m) => (0, m@),
        AppError::BadRequest(m) => (1, m@),
        AppError::Unauthorized(m) => (2, m@),
        AppError::Forbidden(m) => (3, m@),
        AppError::Conflict(m) => (4, m@),
        AppError::Database(m) => (5, m@),
        AppError::Internal(m) => (6, m@),
    }
}

/// `e` is a "not found" error with detail `m`.
pub open spec fn is_not_found(e: AppError, m: Seq<char>) -> bool {
    app_error_parts(e) == (0int, m)
}

/// `e` is a "bad request" error with detail `m`.
pub open spec fn is_bad_request(e: AppError, m: Seq<char>) -> bool {
    app_error_parts(e) == (1int, m)
}

/// `e` is an "unauthorized" error with detail `m`.
pub open spec fn is_unauthorized(e: AppError, m: Seq<char>) -> bool {
    app_error_parts(e) == (2int, m)
}

/// `e` is a "forbidden" error with detail `m`.
pub open spec fn is_forbidden(e: AppError, m: Seq<char>) -> bool {
    app_error_parts(e) == (3int, m)
}

/// `e` is a "conflict" error with detail `m`.
pub open spec fn is_conflict(e: AppError, m: Seq<char>) -> bool {
    app_error_parts(e) == (4int, m)
}

/// `e` is a "database" error with detail `m`.
pub open spec fn is_database(e: AppError, m: Seq<char>) -> bool {
    app_error_parts(e) == (5int, m)
}

/// `e` is an "internal" error with detail `m`.
pub open spec fn is_internal(e: AppError, m: Seq<char>) -> bool {
    app_error_parts(e) == (6int, m)
}

/// `r` is a failure with a "bad request" error carrying detail `m`.
pub open spec fn fails_bad_request<T>(r: Result<T, ApiError>, m: Seq<char>) -> bool {
    r matches Err(e) && is_bad_request(e.0, m)
}

/// `r` is a failure with an "unauthorized" error carrying detail `m`.
pub open spec fn fails_unauthorized<T>(r: Result<T, ApiError>, m: Seq<char>) -> bool {
    r matches Err(e) && is_unauthorized(e.0, m)
}

/// `r` is a failure with a "forbidden" error carrying detail `m`.
pub open spec fn fails_forbidden<T>(r: Result<T, ApiError>, m: Seq<char>) -> bool {
    r matches Err(e) && is_forbidden(e.0, m)
}

/// `r` is a failure with a "conflict" error carrying detail `m`.
pub open spec fn fails_conflict<T>(r: Result<T, ApiError>, m: Seq<char>) -> bool {
    r matches Err(e) && is_conflict(e.0, m)
}

/// `r` is a failure with an "internal" error carrying detail `m`.
pub open spec fn fails_internal<T>(r: Result<T, ApiError>, m: Seq<char>) -> bool {
    r matches Err(e) && is_internal(e.0, m)
}

/// The application error that a user-management error is reported as.
pub open spec fn domain_error_report(e: DomainError) -> (int, Seq<char>) {
    match e {
        DomainError::InvalidEmail => (1, "invalid email"@),
        DomainError::UserNotFound => (0, "user not found"@),
        DomainError::EmailExists => (4, "email already exists"@),
        DomainError::InvalidCredentials => (2, "invalid credentials"@),
        DomainError::UserInactive => (3, "user is not active"@),
        DomainError::TokenExpired => (2, "token expired"@),
        DomainError::TokenRevoked => (2, "token revoked"@),
        DomainError::InvalidAuthCode => (1, "invalid authorization code"@),
        DomainError::PkceFailed => (1, "pkce verification failed"@),
        DomainError::Database(m) => (5, m@),
    }
}

/// The message of a user-management error.
pub open spec fn domain_error_text(e: DomainError) -> Seq<char> {
    match e {
        DomainError::InvalidEmail => "invalid email"@,
        DomainError::UserNotFound => "user not found"@,
        DomainError::EmailExists => "email already exists"@,
        DomainError::InvalidCredentials => "invalid credentials"@,
        DomainError::UserInactive => "user is not active"@,
        DomainError::TokenExpired => "token expired"@,
        DomainError::TokenRevoked => "token revoked"@,
        DomainError::InvalidAuthCode => "invalid authorization code"@,
        DomainError::PkceFailed => "pkce verification failed"@,
        DomainError::Database(m) => "database error: "@ + m@,
    }
}

/// The message of an application error: its kind's prefix, then the detail.
pub open spec fn app_error_text(e: AppError) -> Seq<char> {
    match e {
        AppError::NotFound(m) => "resource not found: "@ + m@,
        AppError::BadRequest(m) => "bad request: "@ + m@,
        AppError::Unauthorized(m) => "unauthorized: "@ + m@,
        AppError::Forbidden(m) => "forbidden: "@ + m@,
        AppError::Conflict(m) => "conflict: "@ + m@,
        AppError::Database(m) => "database error: "@ + m@,
        AppError::Internal(m) => "internal error: "@ + m@,
    }
}

/// HTTP status code and error kind of an application error.
pub open spec fn app_error_status(e: AppError) -> (u16, Seq<char>) {
    match e {
        AppError::NotFound(_) => (404, "not_found"@),
        AppError::BadRequest(_) => (400, "bad_request"@),
        AppError::Unauthorized(_) => (401, "unauthorized"@),
        AppError::Forbidden(_) => (403, "forbidden"@),
        AppError::Conflict(_) => (409, "conflict"@),
        AppError::Database(_) => (500, "database_error"@),
        AppError::Internal(_) => (500, "internal_error"@),
    }
}

/// A database message that reports a violated uniqueness constraint.
pub open spec fn is_unique_violation(msg: Seq<char>) -> bool {
    seq_contains(msg, "UNIQUE constraint"@) || seq_contains(msg, "unique constraint"@)
}

impl DomainError {
    /// The message of this error.
    pub fn message(&self) -> (r: String)
        ensures
            r@ == domain_error_text(*self),
    {
        match self {
            DomainError::InvalidEmail => owned("invalid email"),
            DomainError::UserNotFound => owned("user not found"),
            DomainError::EmailExists => owned("email already exists"),
            DomainError::InvalidCredentials => owned("invalid credentials"),
            DomainError::UserInactive => owned("user is not active"),
            DomainError::TokenExpired => owned("token expired"),
            DomainError::TokenRevoked => owned("token revoked"),
            DomainError::InvalidAuthCode => owned("invalid authorization code"),
            DomainError::PkceFailed => owned("pkce verification failed"),
            DomainError::Database(m) => concat2("database error: ", m.as_str()),
        }
    }
}

impl AppError {
    /// The message of this error.
    pub fn message(&self) -> (r: String)
        ensures
            r@ == app_error_text(*self),
    {
        match self {
            AppError::NotFound(m) => concat2("resource not found: ", m.as_str()),
            AppError::BadRequest(m) => concat2("bad request: ", m.as_str()),
            AppError::Unauthorized(m) => concat2("unauthorized: ", m.as_str()),
            AppError::Forbidden(m) => concat2("forbidden: ", m.as_str()),
            AppError::Conflict(m) => concat2("conflict: ", m.as_str()),
            AppError::Database(m) => concat2("database error: ", m.as_str()),
            AppError::Internal(m) => concat2("internal error: ", m.as_str()),
        }
    }

    /// The application error for a database failure: a missing record is
    /// "not found", a uniqueness violation is a conflict, anything else a
    /// database error.
    pub fn from_db_failure(f: DbFailure) -> (r: AppError)
        ensures
            f matches DbFailure::RecordNotFound(m) ==> is_not_found(r, m@),
            f matches DbFailure::Other(m) ==> (if is_unique_violation(m@) {
                is_conflict(r, m@)
            } else {
                is_database(r, m@)
            }),
    {
        match f {
            DbFailure::RecordNotFound(m) => AppError::NotFound(m),
            DbFailure::Other(m) => {
                if contains_text(m.as_str(), "UNIQUE constraint") || contains_text(
                    m.as_str(),
                    "unique constraint",
                ) {
                    AppError::Conflict(m)
                } else {
                    AppError::Database(m)
                }
            },
        }
    }
}

impl ApiError {
    /// The answer to a user-management error.
    pub fn from_domain_error(e: DomainError) -> (r: ApiError)
        ensures
            app_error_parts(r.0) == domain_error_report(e),
    {
        ApiError(
            match e {
                DomainError::InvalidEmail => AppError::BadRequest(owned("invalid email")),
                DomainError::UserNotFound => AppError::NotFound(owned("user not found")),
                DomainError::EmailExists => AppError::Conflict(owned("email already exists")),
                DomainError::InvalidCredentials => AppError::Unauthorized(
                    owned("invalid credentials"),
                ),
                DomainError::UserInactive => AppError::Forbidden(owned("user is not active")),
                DomainError::TokenExpired => AppError::Unauthorized(owned("token expired")),
                DomainError::TokenRevoked => AppError::Unauthorized(owned("token revoked")),
                DomainError::InvalidAuthCode => AppError::BadRequest(
                    owned("invalid authorization code"),
                ),
                DomainError::PkceFailed => AppError::BadRequest(owned("pkce verification failed")),
                DomainError::Database(m) => AppError::Database(m),
            },
        )
    }

    /// The answer to a failed password-hash operation.
    pub fn password_hash_failure() -> (r: ApiError)
        ensures
            is_internal(r.0, "password hash error"@),
    {
        ApiError(AppError::Internal(owned("password hash error")))
    }

    /// HTTP status code and error kind of this answer.
    pub fn status(&self) -> (r: (u16, &'static str))
        ensures
            (r.0, r.1@) == app_error_status(self.0),
    {
        match self.0 {
            AppError::NotFound(_) => (404, "not_found"),
            AppError::BadRequest(_) => (400, "bad_request"),
            AppError::Unauthorized(_) => (401, "unauthorized"),
            AppError::Forbidden(_) => (403, "forbidden"),
            AppError::Conflict(_) => (409, "conflict"),
            AppError::Database(_) => (500, "database_error"),
            AppError::Internal(_) => (500, "internal_error"),
        }
    }

    /// The status code and body this error is answered with.
    pub fn error_response(&self) -> (r: (u16, ErrorResponse))
        ensures
            r.0 == app_error_status(self.0).0,
            r.1.error@ == app_error_status(self.0).1,
            r.1.message@ == app_error_text(self.0),
    {
        let (code, kind) = self.status();
        (code, ErrorResponse { error: owned(kind), message: self.0.message() })
    }
}

/// Every user-management error is answered with a client-error status
/// (4xx) unless it is a database failure, which is answered with 500.
pub proof fn lemma_domain_errors_are_client_errors(e: DomainError, r: ApiError)
    requires
        app_error_parts(r.0) == domain_error_report(e),
    ensures
        e is Database <==> app_error_status(r.0).0 == 500,
        !(e is Database) ==> 400 <= app_error_status(r.0).0 < 500,
{
}

} // verus!
