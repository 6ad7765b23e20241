//! The error taxonomy of the client.
use crate::text::{decimal, push_decimal};
use vstd::prelude::*;

verus! {

/// The canonical payload of every non-success reply.
#[derive(Debug)]
pub struct B2ErrorResponse {
    pub status: u32,
    pub code: String,
    pub message: String,
}

/// Every way a call can fail.
#[derive(Debug)]
pub enum B2Error {
    /// The transport failed, or an error reply could not be decoded.
    HttpError(String),
    /// The server answered with a non-success status and this payload.
    ApiError(B2ErrorResponse),
    /// A required configuration value is missing.
    ConfigError(String),
    /// A success reply whose body does not have the expected shape.
    InvalidResponse(String),
    /// Reading local content failed.
    IoError(String),
    /// An authenticated operation was attempted before a successful
    /// authorization.
    NotAuthorized,
}

/// The library's result type.
pub type Result<T> = core::result::Result<T, B2Error>;

/// The human-readable text of an API error payload.
pub open spec fn error_response_text(status: u32, code: Seq<char>, message: Seq<char>) -> Seq<char> {
    "Backblaze B2 API error (status "@ + decimal(status as nat) + "): ["@ + code + "] "@ + message
}

/// The human-readable text of an error.
pub open spec fn error_text(e: B2Error) -> Seq<char> {
    match e {
        B2Error::HttpError(m) => "HTTP request failed: "@ + m@,
        B2Error::ApiError(r) => "API error: "@ + error_response_text(r.status, r.code@, r.message@),
        B2Error::ConfigError(m) => "Configuration error: "@ + m@,
        B2Error::InvalidResponse(m) => "Invalid response: "@ + m@,
        B2Error::IoError(m) => "IO error: "@ + m@,
        B2Error::NotAuthorized => "Client not authorized"@,
    }
}

impl B2ErrorResponse {
    /// Renders the payload as a message for people.
    pub fn describe(&self) -> (r: String)
        ensures
            r@ == error_response_text(self.status, self.code@, self.message@),
    {
        let mut s = String::from_str("Backblaze B2 API error (status ");
        push_decimal(&mut s, self.status);
        s.append("): [");
        s.append(self.code.as_str());
        s.append("] ");
        s.append(self.message.as_str());
        proof {
            reveal_strlit("Backblaze B2 API error (status ");
            reveal_strlit("): [");
            reveal_strlit("] ");
        }
        assert(s@ =~= error_response_text(self.status, self.code@, self.message@));
        s
    }
}

impl B2Error {
    /// Renders the error as a message for people.
    pub fn describe(&self) -> (r: String)
        ensures
            r@ == error_text(*self),
    {
        proof {
            reveal_strlit("HTTP request failed: ");
            reveal_strlit("API error: ");
            reveal_strlit("Configuration error: ");
            reveal_strlit("Invalid response: ");
            reveal_strlit("IO error: ");
            reveal_strlit("Client not authorized");
        }
        match self {
            B2Error::HttpError(m) => String::from_str("HTTP request failed: ").concat(m.as_str()),
            B2Error::ApiError(r) => String::from_str("API error: ").concat(r.describe().as_str()),
            B2Error::ConfigError(m) => String::from_str("Configuration error: ").concat(m.as_str()),
            B2Error::InvalidResponse(m) => String::from_str("Invalid response: ").concat(m.as_str()),
            B2Error::IoError(m) => String::from_str("IO error: ").concat(m.as_str()),
            B2Error::NotAuthorized => String::from_str("Client not authorized"),
        }
    }
}

} // verus!
