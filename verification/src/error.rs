//! The errors a command can end with, and what is reported of them.
use vstd::prelude::*;

use crate::json::JsonValue;

verus! {

/// Why a command failed. Errors of the HTTP client and of JSON decoding
/// are carried as their messages.
#[derive(Debug)]
pub enum PfxError {
    Http(String),
    Graphql { message: String, details: Option<JsonValue> },
    AuthRequired,
    AuthStorage(String),
    InvalidArgument(String),
    Json(String),
}

/// The machine-readable code of an error.
pub open spec fn error_code(e: PfxError) -> Seq<char> {
    match e {
        PfxError::Http(_) => "HTTP_ERROR"@,
        PfxError::Graphql { .. } => "GRAPHQL_ERROR"@,
        PfxError::AuthRequired => "AUTH_REQUIRED"@,
        PfxError::AuthStorage(_) => "AUTH_STORAGE_ERROR"@,
        PfxError::InvalidArgument(_) => "INVALID_ARGUMENT"@,
        PfxError::Json(_) => "JSON_ERROR"@,
    }
}

/// The human-readable message of an error.
pub open spec fn error_message(e: PfxError) -> Seq<char> {
    match e {
        PfxError::Http(m) => "HTTP error: "@ + m@,
        PfxError::Graphql { message, .. } => "GraphQL error: "@ + message@,
        PfxError::AuthRequired => "Authentication required"@,
        PfxError::AuthStorage(m) => "Authentication storage error: "@ + m@,
        PfxError::InvalidArgument(m) => "Invalid argument: "@ + m@,
        PfxError::Json(m) => "JSON error: "@ + m@,
    }
}

/// The details that come with an error: only GraphQL errors carry them.
pub open spec fn error_details(e: PfxError) -> Option<JsonValue> {
    match e {
        PfxError::Graphql { details, .. } => details,
        _ => None,
    }
}

impl PfxError {
    /// The machine-readable code of the error.
    pub fn code(&self) -> (r: &'static str)
        ensures
            r@ == error_code(*self),
    {
        match self {
            PfxError::Http(_) => "HTTP_ERROR",
            PfxError::Graphql { .. } => "GRAPHQL_ERROR",
            PfxError::AuthRequired => "AUTH_REQUIRED",
            PfxError::AuthStorage(_) => "AUTH_STORAGE_ERROR",
            PfxError::InvalidArgument(_) => "INVALID_ARGUMENT",
            PfxError::Json(_) => "JSON_ERROR",
        }
    }

    /// The human-readable message of the error.
    pub fn message(&self) -> (r: String)
        ensures
            r@ == error_message(*self),
    {
        match self {
            PfxError::Http(m) => {
                let mut out = String::from_str("HTTP error: ");
                out.append(m.as_str());
                out
            },
            PfxError::Graphql { message, .. } => {
                let mut out = String::from_str("GraphQL error: ");
                out.append(message.as_str());
                out
            },
            PfxError::AuthRequired => String::from_str("Authentication required"),
            PfxError::AuthStorage(m) => {
                let mut out = String::from_str("Authentication storage error: ");
                out.append(m.as_str());
                out
            },
            PfxError::InvalidArgument(m) => {
                let mut out = String::from_str("Invalid argument: ");
                out.append(m.as_str());
                out
            },
            PfxError::Json(m) => {
                let mut out = String::from_str("JSON error: ");
                out.append(m.as_str());
                out
            },
        }
    }
}

/// What is reported of an error: its code, its message and any details.
#[derive(Debug)]
pub struct ErrorResponse {
    pub code: String,
    pub message: String,
    pub details: Option<JsonValue>,
}

impl ErrorResponse {
    /// The report of an error.
    pub fn from(err: PfxError) -> (r: ErrorResponse)
        ensures
            r.code@ == error_code(err),
            r.message@ == error_message(err),
            r.details == error_details(err),
    {
        let code = String::from_str(err.code());
        let message = err.message();
        let details = match err {
            PfxError::Graphql { details, .. } => details,
            _ => None,
        };
        ErrorResponse { code, message, details }
    }
}

} // verus!
