//! What can go wrong, and how it is told to the user.

use vstd::prelude::*;
use vstd::string::*;

verus! {

/// A failure of a poll or of a change to the settings.
#[derive(Debug, Clone, PartialEq, Eq)]
pub enum AppError {
    /// The request did not get through. Holds the transport's own words.
    Http(String),
    /// The service refused the session token, or the token cannot be sent.
    InvalidToken,
    /// The service asked to slow down.
    RateLimited,
    /// The service answered with something else than a usage reading.
    Server(String),
    /// A setting is missing or malformed.
    MissingConfig(String),
    /// The credential store failed.
    Storage(String),
}

impl AppError {
    /// The words that the user is shown.
    pub open spec fn message_text(&self) -> Seq<char> {
        match self {
            AppError::Http(detail) => "HTTP request failed: "@ + detail@,
            AppError::InvalidToken => "Invalid session token"@,
            AppError::RateLimited => "Rate limited"@,
            AppError::Server(detail) => "Server error: "@ + detail@,
            AppError::MissingConfig(detail) => "Missing configuration: "@ + detail@,
            AppError::Storage(detail) => "Storage error: "@ + detail@,
        }
    }

    /// The words that the user is shown.
    pub fn message(&self) -> (text: String)
        ensures
            text@ == self.message_text(),
    {
        match self {
            AppError::Http(detail) => {
                let mut text = String::from_str("HTTP request failed: ");
                text.append(detail.as_str());
                text
            },
            AppError::InvalidToken => String::from_str("Invalid session token"),
            AppError::RateLimited => String::from_str("Rate limited"),
            AppError::Server(detail) => {
                let mut text = String::from_str("Server error: ");
                text.append(detail.as_str());
                text
            },
            AppError::MissingConfig(detail) => {
                let mut text = String::from_str("Missing configuration: ");
                text.append(detail.as_str());
                text
            },
            AppError::Storage(detail) => {
                let mut text = String::from_str("Storage error: ");
                text.append(detail.as_str());
                text
            },
        }
    }

    /// Whether this is the service asking to slow down.
    pub open spec fn spec_is_rate_limited(&self) -> bool {
        self is RateLimited
    }

    /// Whether this is the service asking to slow down.
    #[verifier::when_used_as_spec(spec_is_rate_limited)]
    pub fn is_rate_limited(&self) -> (limited: bool)
        ensures
            limited == self.spec_is_rate_limited(),
    {
        match self {
            AppError::RateLimited => true,
            _ => false,
        }
    }
}

} // verus!
