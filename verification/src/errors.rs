//! Error taxonomy shared by every component.
//!
//! Component functions return one of these kinds; only the outermost HTTP
//! boundary translates a kind into a status code and a response body.
//! Authentication failures all map to 401 with an intentionally generic
//! message, so that the response does not reveal whether a token was
//! malformed, expired, or carried an unknown subject.

use vstd::prelude::*;

verus! {

/// Structured body returned to the client when a request fails.
#[derive(Debug, Clone)]
pub struct ErrorResponse {
    pub success: bool,
    pub message: String,
}

/// Every failure a component of this library can report.
#[derive(Debug, Clone, PartialEq, Eq)]
pub enum ApiError {
    /// No bearer token on a protected route.
    NotLoggedIn,
    /// Signature, shape or expiry check failed on a presented token.
    InvalidToken,
    /// The token was valid but its subject no longer resolves to an account.
    UserGone,
    /// Login lookup found no account under the given username.
    InvalidCredentials,
    /// The account exists but the password does not match its stored hash.
    WrongPassword,
    /// Signup found the (case-folded) username already registered.
    UsernameTaken,
    /// An unexpected multipart field arrived on a create request.
    UnknownField,
    /// A numeric multipart field held text outside its grammar on a
    /// create request.
    MalformedField,
    /// A multipart file field carried no file name.
    MissingFileName,
    /// The content of a multipart file field could not be read.
    FileReadFailed,
    /// A fresh token could not be produced at the boundary.
    TokenCreation,
    /// Deriving a password hash failed; carries the cause for the operator.
    HashFailure(String),
    /// A database query failed; carries the cause for the operator.
    Database(String),
    /// The connection pool could not hand out a connection in time.
    DatabaseTimeout,
    /// The object store rejected or never answered a call.
    Storage(String),
}

impl ApiError {
    /// The HTTP status code the boundary answers with for this kind.
    pub fn status(&self) -> (code: u16)
        ensures
            code == self.spec_status(),
    {
        match self {
            ApiError::NotLoggedIn => 401,
            ApiError::InvalidToken => 401,
            ApiError::UserGone => 401,
            ApiError::InvalidCredentials => 400,
            ApiError::WrongPassword => 401,
            ApiError::UsernameTaken => 400,
            ApiError::UnknownField => 400,
            ApiError::MalformedField => 400,
            ApiError::MissingFileName => 400,
            ApiError::FileReadFailed => 500,
            ApiError::TokenCreation => 500,
            ApiError::HashFailure(_) => 500,
            ApiError::Database(_) => 500,
            ApiError::DatabaseTimeout => 503,
            ApiError::Storage(_) => 500,
        }
    }

    /// Status code of each kind: client input errors are 4xx, authentication
    /// errors are 401, dependency errors are 5xx.
    pub open spec fn spec_status(&self) -> u16 {
        match self {
            ApiError::NotLoggedIn => 401,
            ApiError::InvalidToken => 401,
            ApiError::UserGone => 401,
            ApiError::InvalidCredentials => 400,
            ApiError::WrongPassword => 401,
            ApiError::UsernameTaken => 400,
            ApiError::UnknownField => 400,
            ApiError::MalformedField => 400,
            ApiError::MissingFileName => 400,
            ApiError::FileReadFailed => 500,
            ApiError::TokenCreation => 500,
            ApiError::HashFailure(_) => 500,
            ApiError::Database(_) => 500,
            ApiError::DatabaseTimeout => 503,
            ApiError::Storage(_) => 500,
        }
    }

    /// The message shown to the client for this kind.
    pub fn message(&self) -> (msg: String)
        ensures
            msg@ == self.spec_message(),
    {
        match self {
            ApiError::NotLoggedIn => String::from_str("You are not logged in, please provide token"),
            ApiError::InvalidToken => String::from_str("Invalid token"),
            ApiError::UserGone => String::from_str("The user belonging to this token no longer exists"),
            ApiError::InvalidCredentials => String::from_str("Invalid email or password"),
            ApiError::WrongPassword => String::from_str("Invalid email or password"),
            ApiError::UsernameTaken => String::from_str("Username already taken"),
            ApiError::UnknownField => String::from_str("Unexpected field found in form data"),
            ApiError::MalformedField => String::from_str("Malformed field value in form data"),
            ApiError::MissingFileName => String::from_str("File name missing"),
            ApiError::FileReadFailed => String::from_str("Failed to read file content"),
            ApiError::TokenCreation => String::from_str("Failed to generate token"),
            ApiError::HashFailure(cause) => {
                let mut msg = String::from_str("Password hashing error: ");
                msg.append(cause.as_str());
                msg
            },
            ApiError::Database(cause) => {
                let mut msg = String::from_str("Database error: ");
                msg.append(cause.as_str());
                msg
            },
            ApiError::DatabaseTimeout => String::from_str("Database unavailable"),
            ApiError::Storage(cause) => {
                let mut msg = String::from_str("Storage unavailable: ");
                msg.append(cause.as_str());
                msg
            },
        }
    }

    /// Message of each kind. Authentication rejections deliberately share
    /// generic wording; dependency errors carry their cause, but never
    /// credential material.
    pub open spec fn spec_message(&self) -> Seq<char> {
        match self {
            ApiError::NotLoggedIn => "You are not logged in, please provide token"@,
            ApiError::InvalidToken => "Invalid token"@,
            ApiError::UserGone => "The user belonging to this token no longer exists"@,
            ApiError::InvalidCredentials => "Invalid email or password"@,
            ApiError::WrongPassword => "Invalid email or password"@,
            ApiError::UsernameTaken => "Username already taken"@,
            ApiError::UnknownField => "Unexpected field found in form data"@,
            ApiError::MalformedField => "Malformed field value in form data"@,
            ApiError::MissingFileName => "File name missing"@,
            ApiError::FileReadFailed => "Failed to read file content"@,
            ApiError::TokenCreation => "Failed to generate token"@,
            ApiError::HashFailure(cause) => "Password hashing error: "@ + cause@,
            ApiError::Database(cause) => "Database error: "@ + cause@,
            ApiError::DatabaseTimeout => "Database unavailable"@,
            ApiError::Storage(cause) => "Storage unavailable: "@ + cause@,
        }
    }

    /// The structured body the boundary sends for this kind.
    pub fn body(&self) -> (resp: ErrorResponse)
        ensures
            !resp.success,
            resp.message@ == self.spec_message(),
    {
        ErrorResponse { success: false, message: self.message() }
    }
}

} // verus!
