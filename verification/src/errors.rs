//! Errors of the service layer and of the HTTP layer, how they are
//! classified, and what a client is told about each.

use vstd::prelude::*;
use crate::text::{concat, owned};

verus! {

/// How an error is handled: business errors may be shown to the client,
/// system errors are logged and hidden behind a generic message.
#[derive(Debug, Clone, Copy, PartialEq, Eq, Structural)]
pub enum ErrorCategory {
    /// A business-logic error, safe to return to the client.
    Business,
    /// An internal error: logged, answered with a generic message.
    System,
}

/// Errors raised by the service layer.
#[derive(Debug)]
pub enum ServiceError {
    /// The member does not exist.
    MemberNotFound,
    /// The user name is already taken.
    UsernameExists,
    /// The credentials do not match.
    InvalidCredentials,
    /// An input parameter is invalid.
    InvalidInput(String),
    /// The database failed; holds the database's own error text.
    Database(String),
    /// The file storage failed.
    Storage(String),
    /// The file does not exist.
    FileNotFound,
    /// An unknown failure.
    Unknown,
    /// Any other failure.
    Other(String),
    /// A request that breaks a rule of the album service.
    Validation(String),
    /// The requested album does not exist.
    NotFound(String),
    /// The album belongs to another member.
    Forbidden(String),
}

/// The category of each service error.
pub open spec fn service_category(e: ServiceError) -> ErrorCategory {
    match e {
        ServiceError::MemberNotFound | ServiceError::UsernameExists
        | ServiceError::InvalidCredentials | ServiceError::InvalidInput(_)
        | ServiceError::FileNotFound | ServiceError::Validation(_) | ServiceError::NotFound(_)
        | ServiceError::Forbidden(_) => ErrorCategory::Business,
        ServiceError::Database(_) | ServiceError::Storage(_) | ServiceError::Unknown
        | ServiceError::Other(_) => ErrorCategory::System,
    }
}

/// The text of each service error, as shown when it is displayed.
pub open spec fn service_text(e: ServiceError) -> Seq<char> {
    match e {
        ServiceError::MemberNotFound => "member not found"@,
        ServiceError::UsernameExists => "username already exists"@,
        ServiceError::InvalidCredentials => "invalid credentials"@,
        ServiceError::InvalidInput(m) => "invalid input: "@ + m@,
        ServiceError::Database(m) => "database error: "@ + m@,
        ServiceError::Storage(m) => "storage error: "@ + m@,
        ServiceError::FileNotFound => "file not found"@,
        ServiceError::Unknown => "unknown error"@,
        ServiceError::Other(m) => "other error: "@ + m@,
        ServiceError::Validation(m) => "validation error: "@ + m@,
        ServiceError::NotFound(m) => "not found: "@ + m@,
        ServiceError::Forbidden(m) => "forbidden: "@ + m@,
    }
}

impl ServiceError {
    /// The category of this error.
    pub fn category(&self) -> (c: ErrorCategory)
        ensures
            c == service_category(*self),
    {
        match self {
            ServiceError::MemberNotFound | ServiceError::UsernameExists
            | ServiceError::InvalidCredentials | ServiceError::InvalidInput(_)
            | ServiceError::FileNotFound | ServiceError::Validation(_) | ServiceError::NotFound(_)
            | ServiceError::Forbidden(_) => ErrorCategory::Business,
            ServiceError::Database(_) | ServiceError::Storage(_) | ServiceError::Unknown
            | ServiceError::Other(_) => ErrorCategory::System,
        }
    }

    /// Whether this is a business error.
    pub fn is_business_error(&self) -> (b: bool)
        ensures
            b == (service_category(*self) == ErrorCategory::Business),
    {
        match self {
            ServiceError::MemberNotFound | ServiceError::UsernameExists
            | ServiceError::InvalidCredentials | ServiceError::InvalidInput(_)
            | ServiceError::FileNotFound | ServiceError::Validation(_) | ServiceError::NotFound(_)
            | ServiceError::Forbidden(_) => true,
            _ => false,
        }
    }

    /// Whether this is a system error.
    pub fn is_system_error(&self) -> (b: bool)
        ensures
            b == (service_category(*self) == ErrorCategory::System),
    {
        match self {
            ServiceError::Database(_) | ServiceError::Storage(_) | ServiceError::Unknown
            | ServiceError::Other(_) => true,
            _ => false,
        }
    }

    /// The text of this error.
    pub fn message(&self) -> (s: String)
        ensures
            s@ == service_text(*self),
    {
        match self {
            ServiceError::MemberNotFound => owned("member not found"),
            ServiceError::UsernameExists => owned("username already exists"),
            ServiceError::InvalidCredentials => owned("invalid credentials"),
            ServiceError::InvalidInput(m) => concat("invalid input: ", m.as_str()),
            ServiceError::Database(m) => concat("database error: ", m.as_str()),
            ServiceError::Storage(m) => concat("storage error: ", m.as_str()),
            ServiceError::FileNotFound => owned("file not found"),
            ServiceError::Unknown => owned("unknown error"),
            ServiceError::Other(m) => concat("other error: ", m.as_str()),
            ServiceError::Validation(m) => concat("validation error: ", m.as_str()),
            ServiceError::NotFound(m) => concat("not found: ", m.as_str()),
            ServiceError::Forbidden(m) => concat("forbidden: ", m.as_str()),
        }
    }
}

/// Every service error is either a business error or a system error, never
/// both.
pub proof fn lemma_service_error_kinds(e: ServiceError)
    ensures
        (service_category(e) == ErrorCategory::Business) != (service_category(e)
            == ErrorCategory::System),
{
}

/// Errors answered by the HTTP layer.
#[derive(Debug)]
pub enum AppError {
    MemberNotFound,
    MemberAlreadyExists,
    InvalidCredentials,
    Forbidden,
    NotFound,
    InvalidInput(String),
    ValidationError(String),
    DatabaseError,
    ServiceError(ServiceError),
    Unknown,
}

/// The message a client is shown for an error: business errors say what
/// went wrong, internal errors only that something failed.
pub open spec fn user_text(e: AppError) -> Seq<char> {
    match e {
        AppError::MemberNotFound => "member not found"@,
        AppError::MemberAlreadyExists => "member already exists"@,
        AppError::InvalidCredentials => "invalid credentials"@,
        AppError::Forbidden => "forbidden"@,
        AppError::NotFound => "not found"@,
        AppError::InvalidInput(m) => m@,
        AppError::ValidationError(m) => m@,
        AppError::DatabaseError | AppError::Unknown => "internal server error"@,
        AppError::ServiceError(s) => match service_category(s) {
            ErrorCategory::Business => service_text(s),
            ErrorCategory::System => "internal server error"@,
        },
    }
}

/// Whether an error is logged at error level.
pub open spec fn logged(e: AppError) -> bool {
    match e {
        AppError::DatabaseError | AppError::Unknown | AppError::ServiceError(_) => true,
        _ => false,
    }
}

/// The HTTP status an error is answered with.
pub open spec fn http_status(e: AppError) -> u16 {
    match e {
        AppError::MemberNotFound => 404,
        AppError::MemberAlreadyExists => 409,
        AppError::InvalidCredentials => 401,
        AppError::Forbidden => 403,
        AppError::NotFound => 404,
        AppError::InvalidInput(_) => 400,
        AppError::ValidationError(_) => 400,
        AppError::DatabaseError => 500,
        AppError::Unknown => 500,
        AppError::ServiceError(s) => match service_category(s) {
            ErrorCategory::Business => match s {
                ServiceError::MemberNotFound => 404,
                ServiceError::UsernameExists => 409,
                ServiceError::InvalidCredentials => 401,
                ServiceError::InvalidInput(_) => 400,
                _ => 500,
            },
            ErrorCategory::System => 500,
        },
    }
}

/// The text of each error, as shown when it is displayed.
pub open spec fn app_text(e: AppError) -> Seq<char> {
    match e {
        AppError::MemberNotFound => "member not found"@,
        AppError::MemberAlreadyExists => "member already exists"@,
        AppError::InvalidCredentials => "invalid credentials"@,
        AppError::Forbidden => "forbidden"@,
        AppError::NotFound => "not found"@,
        AppError::InvalidInput(m) => "invalid input: "@ + m@,
        AppError::ValidationError(m) => "validation error: "@ + m@,
        AppError::DatabaseError => "database error"@,
        AppError::ServiceError(_) => "service error"@,
        AppError::Unknown => "unknown error"@,
    }
}

impl AppError {
    /// The message shown to the client; internal details are never shown.
    pub fn user_message(&self) -> (s: String)
        ensures
            s@ == user_text(*self),
    {
        match self {
            AppError::MemberNotFound => owned("member not found"),
            AppError::MemberAlreadyExists => owned("member already exists"),
            AppError::InvalidCredentials => owned("invalid credentials"),
            AppError::Forbidden => owned("forbidden"),
            AppError::NotFound => owned("not found"),
            AppError::InvalidInput(m) => m.clone(),
            AppError::ValidationError(m) => m.clone(),
            AppError::DatabaseError | AppError::Unknown => owned("internal server error"),
            AppError::ServiceError(e) => match e.category() {
                ErrorCategory::Business => e.message(),
                ErrorCategory::System => owned("internal server error"),
            },
        }
    }

    /// Whether the error is logged.
    pub fn should_log(&self) -> (b: bool)
        ensures
            b == logged(*self),
    {
        match self {
            AppError::MemberNotFound | AppError::MemberAlreadyExists | AppError::InvalidCredentials
            | AppError::Forbidden | AppError::NotFound | AppError::ValidationError(_) => false,
            AppError::InvalidInput(_) => false,
            AppError::DatabaseError | AppError::Unknown | AppError::ServiceError(_) => true,
        }
    }

    /// The HTTP status code the error is answered with.
    pub fn status_code(&self) -> (c: u16)
        ensures
            c == http_status(*self),
    {
        match self {
            AppError::MemberNotFound => 404,
            AppError::MemberAlreadyExists => 409,
            AppError::InvalidCredentials => 401,
            AppError::Forbidden => 403,
            AppError::NotFound => 404,
            AppError::InvalidInput(_) => 400,
            AppError::ValidationError(_) => 400,
            AppError::DatabaseError => 500,
            AppError::Unknown => 500,
            AppError::ServiceError(e) => match e.category() {
                ErrorCategory::Business => match e {
                    ServiceError::MemberNotFound => 404,
                    ServiceError::UsernameExists => 409,
                    ServiceError::InvalidCredentials => 401,
                    ServiceError::InvalidInput(_) => 400,
                    _ => 500,
                },
                ErrorCategory::System => 500,
            },
        }
    }

    /// The text of the error.
    pub fn message(&self) -> (s: String)
        ensures
            s@ == app_text(*self),
    {
        match self {
            AppError::MemberNotFound => owned("member not found"),
            AppError::MemberAlreadyExists => owned("member already exists"),
            AppError::InvalidCredentials => owned("invalid credentials"),
            AppError::Forbidden => owned("forbidden"),
            AppError::NotFound => owned("not found"),
            AppError::InvalidInput(m) => concat("invalid input: ", m.as_str()),
            AppError::ValidationError(m) => concat("validation error: ", m.as_str()),
            AppError::DatabaseError => owned("database error"),
            AppError::ServiceError(_) => owned("service error"),
            AppError::Unknown => owned("unknown error"),
        }
    }
}

/// Every error answered with status 500 is logged.
pub proof fn lemma_internal_errors_are_logged(e: AppError)
    ensures
        http_status(e) == 500 ==> logged(e),
{
}

/// A system error of the service layer never reaches the client: its
/// answer is status 500 with a generic message.
pub proof fn lemma_system_errors_hidden(s: ServiceError)
    requires
        service_category(s) == ErrorCategory::System,
    ensures
        http_status(AppError::ServiceError(s)) == 500,
        user_text(AppError::ServiceError(s)) == "internal server error"@,
{
}

/// A business error of the service layer is shown to the client with its
/// own text.
pub proof fn lemma_business_errors_shown(s: ServiceError)
    requires
        service_category(s) == ErrorCategory::Business,
    ensures
        user_text(AppError::ServiceError(s)) == service_text(s),
{
}

impl From<ServiceError> for AppError {
    fn from(e: ServiceError) -> (r: AppError) {
        AppError::ServiceError(e)
    }
}

impl vstd::std_specs::convert::FromSpecImpl<ServiceError> for AppError {
    open spec fn obeys_from_spec() -> bool {
        true
    }

    open spec fn from_spec(e: ServiceError) -> AppError {
        AppError::ServiceError(e)
    }
}

/// The application error a service error stands for, where the application
/// has one of its own.
pub open spec fn app_counterpart(s: ServiceError) -> Option<AppError> {
    match s {
        ServiceError::MemberNotFound => Some(AppError::MemberNotFound),
        ServiceError::UsernameExists => Some(AppError::MemberAlreadyExists),
        ServiceError::InvalidCredentials => Some(AppError::InvalidCredentials),
        ServiceError::InvalidInput(m) => Some(AppError::InvalidInput(m)),
        _ => None,
    }
}

/// A service error that has an application counterpart is answered with
/// the same status as that counterpart, whichever layer reports it, and
/// that status is a client error, never 500.
pub proof fn service_errors_answer_like_their_counterpart(s: ServiceError)
    ensures
        app_counterpart(s) matches Some(a) ==> http_status(AppError::ServiceError(s)) == http_status(a)
            && 400 <= http_status(a) < 500,
{
}

/// Status 401 answers a failed authentication and nothing else: bad
/// credentials, reported by the application or by the service layer.
pub proof fn unauthorized_means_bad_credentials(e: AppError)
    ensures
        http_status(e) == 401 <==> (e == AppError::InvalidCredentials || e == AppError::ServiceError(
            ServiceError::InvalidCredentials,
        )),
{
}

} // verus!
