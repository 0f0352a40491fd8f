//! Error taxonomy for the library.
//!
//! Transport failures, rate limiting and server-side failures are the
//! retryable outcomes; everything else is terminal for the current call.

use vstd::prelude::*;
use crate::strutil::spec_digits;
use crate::strutil::u64_to_string;

verus! {

/// Errors surfaced by the library.
#[derive(Debug, Clone)]
pub enum GrokError {
    /// The HTTP exchange could not be completed (connection, timeout, TLS).
    Http(String),
    /// A body could not be decoded as the expected structure.
    Json(String),
    /// The service answered with a non-success status.
    Api { status: u16, message: String },
    /// A configuration value or request parameter is out of range.
    InvalidConfig(String),
    /// The service rejected the caller's credential.
    Authentication(String),
    /// The service asked the caller to slow down.
    RateLimit { retry_after: Option<u64> },
    /// A registered tool failed while executing.
    ToolExecution(String),
    /// A session operation could not be carried out.
    Session(String),
    /// A collection operation could not be carried out.
    Collection(String),
    /// The persistence layer reported a failure.
    Database(String),
    /// Tool arguments did not match the declared schema.
    SchemaValidation(String),
    /// The supplied credential is malformed.
    InvalidApiKey(String),
}

impl GrokError {
    /// The human-readable description of the error.
    pub open spec fn spec_message(&self) -> Seq<char> {
        match self {
            GrokError::Http(s) => "HTTP request failed: "@ + s@,
            GrokError::Json(s) => "JSON processing failed: "@ + s@,
            GrokError::Api { status, message } => "API error (status "@ + spec_digits(
                *status as nat,
            ) + "): "@ + message@,
            GrokError::InvalidConfig(s) => "Invalid configuration: "@ + s@,
            GrokError::Authentication(s) => "Authentication failed: "@ + s@,
            GrokError::RateLimit { retry_after } => match retry_after {
                Some(n) => "Rate limit exceeded, retry after "@ + spec_digits(*n as nat)
                    + " seconds"@,
                None => "Rate limit exceeded"@,
            },
            GrokError::ToolExecution(s) => "Tool execution failed: "@ + s@,
            GrokError::Session(s) => "Session operation failed: "@ + s@,
            GrokError::Collection(s) => "Collection operation failed: "@ + s@,
            GrokError::Database(s) => "Database error: "@ + s@,
            GrokError::SchemaValidation(s) => "JSON Schema validation failed: "@ + s@,
            GrokError::InvalidApiKey(s) => "Invalid API key: "@ + s@,
        }
    }

    /// Render the error as text.
    pub fn message(&self) -> (r: String)
        ensures
            r@ == self.spec_message(),
    {
        match self {
            GrokError::Http(s) => prefixed("HTTP request failed: ", s),
            GrokError::Json(s) => prefixed("JSON processing failed: ", s),
            GrokError::Api { status, message } => {
                let mut r = String::from_str("API error (status ");
                let digits = u64_to_string(*status as u64);
                r.append(digits.as_str());
                r.append("): ");
                r.append(message.as_str());
                r
            },
            GrokError::InvalidConfig(s) => prefixed("Invalid configuration: ", s),
            GrokError::Authentication(s) => prefixed("Authentication failed: ", s),
            GrokError::RateLimit { retry_after } => match retry_after {
                Some(n) => {
                    let mut r = String::from_str("Rate limit exceeded, retry after ");
                    let digits = u64_to_string(*n);
                    r.append(digits.as_str());
                    r.append(" seconds");
                    r
                },
                None => String::from_str("Rate limit exceeded"),
            },
            GrokError::ToolExecution(s) => prefixed("Tool execution failed: ", s),
            GrokError::Session(s) => prefixed("Session operation failed: ", s),
            GrokError::Collection(s) => prefixed("Collection operation failed: ", s),
            GrokError::Database(s) => prefixed("Database error: ", s),
            GrokError::SchemaValidation(s) => prefixed("JSON Schema validation failed: ", s),
            GrokError::InvalidApiKey(s) => prefixed("Invalid API key: ", s),
        }
    }
}

/// A prefix literal followed by the given text.
fn prefixed(prefix: &str, body: &String) -> (r: String)
    ensures
        r@ == prefix@ + body@,
{
    let mut r = prefix.to_owned();
    r.append(body.as_str());
    r
}

} // verus!
