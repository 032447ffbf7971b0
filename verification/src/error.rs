//! The common error type of the Framecast services, with the HTTP status
//! and machine-readable code that each kind of error is answered with.

use vstd::prelude::*;

verus! {

/// Common error type. The variants that wrap an error of a lower layer
/// (database, serialization, anything unexpected) carry its message.
#[derive(Debug, Clone)]
pub enum Error {
    Unexpected(String),
    Database(String),
    Serialization(String),
    Authentication(String),
    Authorization(String),
    Validation(String),
    NotFound(String),
    Conflict(String),
    Internal(String),
    RateLimit(String),
}

/// Common result type
pub type Result<T> = core::result::Result<T, Error>;

/// The kind of an error, without its message.
#[derive(Debug, Clone, Copy, PartialEq, Eq, Structural)]
pub enum ErrorKind {
    Unexpected,
    Database,
    Serialization,
    Authentication,
    Authorization,
    Validation,
    NotFound,
    Conflict,
    Internal,
    RateLimit,
}

impl View for Error {
    type V = (ErrorKind, Seq<char>);

    open spec fn view(&self) -> (ErrorKind, Seq<char>) {
        match self {
            Error::Unexpected(m) => (ErrorKind::Unexpected, m@),
            Error::Database(m) => (ErrorKind::Database, m@),
            Error::Serialization(m) => (ErrorKind::Serialization, m@),
            Error::Authentication(m) => (ErrorKind::Authentication, m@),
            Error::Authorization(m) => (ErrorKind::Authorization, m@),
            Error::Validation(m) => (ErrorKind::Validation, m@),
            Error::NotFound(m) => (ErrorKind::NotFound, m@),
            Error::Conflict(m) => (ErrorKind::Conflict, m@),
            Error::Internal(m) => (ErrorKind::Internal, m@),
            Error::RateLimit(m) => (ErrorKind::RateLimit, m@),
        }
    }
}

/// The model of a validation error carrying `msg`.
pub open spec fn validation(msg: Seq<char>) -> (ErrorKind, Seq<char>) {
    (ErrorKind::Validation, msg)
}

/// A validation error with the given message.
pub fn validation_error(msg: &str) -> (e: Error)
    ensures
        e@ == validation(msg@),
{
    Error::Validation(String::from_str(msg))
}

/// The model of a `Result` whose error is an `Error`.
pub open spec fn res_view<T>(r: core::result::Result<T, Error>) -> core::result::Result<T, (ErrorKind, Seq<char>)> {
    match r {
        Ok(v) => Ok(v),
        Err(e) => Err(e@),
    }
}

impl ErrorKind {
    pub open spec fn spec_status_code(self) -> u16 {
        match self {
            ErrorKind::Authentication => 401,
            ErrorKind::Authorization => 403,
            ErrorKind::Validation => 400,
            ErrorKind::NotFound => 404,
            ErrorKind::Conflict => 409,
            ErrorKind::RateLimit => 429,
            _ => 500,
        }
    }

    pub open spec fn spec_error_code(self) -> Seq<char> {
        match self {
            ErrorKind::Unexpected => "UNEXPECTED_ERROR"@,
            ErrorKind::Database => "DATABASE_ERROR"@,
            ErrorKind::Serialization => "SERIALIZATION_ERROR"@,
            ErrorKind::Authentication => "AUTHENTICATION_ERROR"@,
            ErrorKind::Authorization => "AUTHORIZATION_ERROR"@,
            ErrorKind::Validation => "VALIDATION_ERROR"@,
            ErrorKind::NotFound => "NOT_FOUND"@,
            ErrorKind::Conflict => "CONFLICT"@,
            ErrorKind::Internal => "INTERNAL_ERROR"@,
            ErrorKind::RateLimit => "RATE_LIMIT_EXCEEDED"@,
        }
    }

    pub open spec fn spec_prefix(self) -> Seq<char> {
        match self {
            ErrorKind::Unexpected => "Unexpected error: "@,
            ErrorKind::Database => "Database error: "@,
            ErrorKind::Serialization => "Serialization error: "@,
            ErrorKind::Authentication => "Authentication error: "@,
            ErrorKind::Authorization => "Authorization error: "@,
            ErrorKind::Validation => "Validation error: "@,
            ErrorKind::NotFound => "Not found: "@,
            ErrorKind::Conflict => "Conflict: "@,
            ErrorKind::Internal => "Internal error: "@,
            ErrorKind::RateLimit => "Rate limit exceeded: "@,
        }
    }
}

impl Error {
    /// The kind of this error.
    pub fn kind(&self) -> (k: ErrorKind)
        ensures
            k == self@.0,
    {
        match self {
            Error::Unexpected(_) => ErrorKind::Unexpected,
            Error::Database(_) => ErrorKind::Database,
            Error::Serialization(_) => ErrorKind::Serialization,
            Error::Authentication(_) => ErrorKind::Authentication,
            Error::Authorization(_) => ErrorKind::Authorization,
            Error::Validation(_) => ErrorKind::Validation,
            Error::NotFound(_) => ErrorKind::NotFound,
            Error::Conflict(_) => ErrorKind::Conflict,
            Error::Internal(_) => ErrorKind::Internal,
            Error::RateLimit(_) => ErrorKind::RateLimit,
        }
    }

    /// The HTTP status code that this error is answered with.
    pub fn status_code(&self) -> (c: u16)
        ensures
            c == self@.0.spec_status_code(),
    {
        match self {
            Error::Authentication(_) => 401,
            Error::Authorization(_) => 403,
            Error::Validation(_) => 400,
            Error::NotFound(_) => 404,
            Error::Conflict(_) => 409,
            Error::RateLimit(_) => 429,
            Error::Unexpected(_) | Error::Database(_) | Error::Serialization(_) | Error::Internal(_) => 500,
        }
    }

    /// The error code for API responses.
    pub fn error_code(&self) -> (c: &'static str)
        ensures
            c@ == self@.0.spec_error_code(),
    {
        match self {
            Error::Unexpected(_) => "UNEXPECTED_ERROR",
            Error::Database(_) => "DATABASE_ERROR",
            Error::Serialization(_) => "SERIALIZATION_ERROR",
            Error::Authentication(_) => "AUTHENTICATION_ERROR",
            Error::Authorization(_) => "AUTHORIZATION_ERROR",
            Error::Validation(_) => "VALIDATION_ERROR",
            Error::NotFound(_) => "NOT_FOUND",
            Error::Conflict(_) => "CONFLICT",
            Error::Internal(_) => "INTERNAL_ERROR",
            Error::RateLimit(_) => "RATE_LIMIT_EXCEEDED",
        }
    }

    /// The message this error displays: its kind's prefix and its own text.
    pub fn to_string(&self) -> (s: String)
        ensures
            s@ == self@.0.spec_prefix() + self@.1,
    {
        let (prefix, m) = match self {
            Error::Unexpected(m) => ("Unexpected error: ", m),
            Error::Database(m) => ("Database error: ", m),
            Error::Serialization(m) => ("Serialization error: ", m),
            Error::Authentication(m) => ("Authentication error: ", m),
            Error::Authorization(m) => ("Authorization error: ", m),
            Error::Validation(m) => ("Validation error: ", m),
            Error::NotFound(m) => ("Not found: ", m),
            Error::Conflict(m) => ("Conflict: ", m),
            Error::Internal(m) => ("Internal error: ", m),
            Error::RateLimit(m) => ("Rate limit exceeded: ", m),
        };
        let mut s = String::from_str(prefix);
        s.append(m.as_str());
        s
    }
}


/// Errors of the repositories that store the entities.
#[derive(Debug, Clone)]
pub enum RepositoryError {
    NotFound,
    AlreadyExists,
    /// The database could not be reached or refused the query.
    Connection(String),
    InvalidData(String),
}

impl RepositoryError {
    pub open spec fn spec_message(&self) -> Seq<char> {
        match self {
            RepositoryError::NotFound => "Record not found"@,
            RepositoryError::AlreadyExists => "Record already exists"@,
            RepositoryError::Connection(m) => "Database connection error: "@ + m@,
            RepositoryError::InvalidData(m) => "Invalid data: "@ + m@,
        }
    }

    /// The error's message.
    pub fn to_string(&self) -> (s: String)
        ensures
            s@ == self.spec_message(),
    {
        match self {
            RepositoryError::NotFound => String::from_str("Record not found"),
            RepositoryError::AlreadyExists => String::from_str("Record already exists"),
            RepositoryError::Connection(m) => {
                let mut s = String::from_str("Database connection error: ");
                s.append(m.as_str());
                s
            },
            RepositoryError::InvalidData(m) => {
                let mut s = String::from_str("Invalid data: ");
                s.append(m.as_str());
                s
            },
        }
    }

    /// The common error this becomes: missing records are not found, duplicates
    /// conflict, connection failures are database errors and invalid data is a
    /// validation error.
    pub fn into_error(self) -> (e: Error)
        ensures
            e@ == (match self {
                RepositoryError::NotFound => (ErrorKind::NotFound, "Record not found"@),
                RepositoryError::AlreadyExists => (ErrorKind::Conflict, "Record already exists"@),
                RepositoryError::Connection(m) => (ErrorKind::Database, m@),
                RepositoryError::InvalidData(m) => (ErrorKind::Validation, m@),
            }),
    {
        match self {
            RepositoryError::NotFound => Error::NotFound(String::from_str("Record not found")),
            RepositoryError::AlreadyExists => Error::Conflict(String::from_str("Record already exists")),
            RepositoryError::Connection(m) => Error::Database(m),
            RepositoryError::InvalidData(m) => Error::Validation(m),
        }
    }
}

} // verus!
