use vstd::prelude::*;
use vstd::string::StringExecFns;

verus! {

/// The body that goes out with every failure.
#[derive(Debug)]
pub struct ErrorResponse {
    pub error: String,
}

/// Why a request was turned down. Malformed values, wrong values and
/// failures of a store or a transport are kept apart, so that the boundary
/// can answer each with a status of its own.
#[derive(Debug, Clone, Copy, PartialEq, Eq, Structural)]
pub enum AuthAPIError {
    /// The shape was right and the value was wrong.
    IncorrectCredentials,
    /// An address, a password or a code that breaks its policy.
    InvalidCredentials,
    InvalidToken,
    MissingToken,
    /// A store or a transport failed.
    UnexpectedError,
    UserAlreadyExists,
}

impl AuthAPIError {
    /// The HTTP status that answers the error.
    pub open spec fn status(self) -> u16 {
        match self {
            AuthAPIError::IncorrectCredentials => 401,
            AuthAPIError::InvalidCredentials => 400,
            AuthAPIError::InvalidToken => 401,
            AuthAPIError::MissingToken => 400,
            AuthAPIError::UnexpectedError => 500,
            AuthAPIError::UserAlreadyExists => 409,
        }
    }

    /// The text shown to the caller. A wrong value and a malformed one read
    /// the same, so that the answer does not tell which field was at fault.
    pub open spec fn message(self) -> Seq<char> {
        match self {
            AuthAPIError::IncorrectCredentials => "Invalid credentials"@,
            AuthAPIError::InvalidCredentials => "Invalid credentials"@,
            AuthAPIError::InvalidToken => "Invalid auth token"@,
            AuthAPIError::MissingToken => "Missing auth token"@,
            AuthAPIError::UnexpectedError => "Unexpected error"@,
            AuthAPIError::UserAlreadyExists => "User already exists"@,
        }
    }

    /// The error's own name in words.
    pub open spec fn description(self) -> Seq<char> {
        match self {
            AuthAPIError::IncorrectCredentials => "Incorrect credentials"@,
            AuthAPIError::InvalidCredentials => "Invalid credentials"@,
            AuthAPIError::InvalidToken => "Invalid token"@,
            AuthAPIError::MissingToken => "Missing token"@,
            AuthAPIError::UnexpectedError => "Unexpected error"@,
            AuthAPIError::UserAlreadyExists => "User already exists"@,
        }
    }

    pub fn status_code(&self) -> (code: u16)
        ensures
            code == self.status(),
    {
        match self {
            AuthAPIError::IncorrectCredentials => 401,
            AuthAPIError::InvalidCredentials => 400,
            AuthAPIError::InvalidToken => 401,
            AuthAPIError::MissingToken => 400,
            AuthAPIError::UnexpectedError => 500,
            AuthAPIError::UserAlreadyExists => 409,
        }
    }

    pub fn error_message(&self) -> (text: &'static str)
        ensures
            text@ == self.message(),
    {
        match self {
            AuthAPIError::IncorrectCredentials => "Invalid credentials",
            AuthAPIError::InvalidCredentials => "Invalid credentials",
            AuthAPIError::InvalidToken => "Invalid auth token",
            AuthAPIError::MissingToken => "Missing auth token",
            AuthAPIError::UnexpectedError => "Unexpected error",
            AuthAPIError::UserAlreadyExists => "User already exists",
        }
    }

    /// The error's name in words, as a `String`.
    pub fn describe(&self) -> (text: String)
        ensures
            text@ == self.description(),
    {
        let text = match self {
            AuthAPIError::IncorrectCredentials => "Incorrect credentials",
            AuthAPIError::InvalidCredentials => "Invalid credentials",
            AuthAPIError::InvalidToken => "Invalid token",
            AuthAPIError::MissingToken => "Missing token",
            AuthAPIError::UnexpectedError => "Unexpected error",
            AuthAPIError::UserAlreadyExists => "User already exists",
        };
        String::from_str(text)
    }

    /// The status and the body that answer the error.
    pub fn into_response(self) -> (r: (u16, ErrorResponse))
        ensures
            r.0 == self.status(),
            r.1.error@ == self.message(),
    {
        (self.status_code(), ErrorResponse { error: String::from_str(self.error_message()) })
    }
}

} // verus!
