//! Errors — backend-agnostic.

use vstd::prelude::*;
use crate::text::{decimal, decimal_chars, push_str, string_of};

verus! {

/// Errors that can occur during a search.
#[derive(Debug)]
pub enum DorkError {
    /// The query is malformed or empty.
    InvalidQuery(String),
    /// The backend exceeded its rate limit. Callers should back off.
    RateLimited {
        /// Suggested wait, in seconds.
        retry_after_seconds: u64,
    },
    /// The backend's authentication failed (missing or invalid key).
    Auth(String),
    /// Network-level failure (DNS, connect, TLS).
    Network(String),
    /// The backend's response could not be parsed (HTML drift, JSON error, …).
    Parse(String),
    /// Catch-all for backend-specific failures, carrying the underlying
    /// failure's description.
    Backend(String),
}

/// Convenience alias used throughout the crate.
pub type Result<T> = std::result::Result<T, DorkError>;

impl DorkError {
    /// The human-readable rendering of the error.
    pub open spec fn message(self) -> Seq<char> {
        match self {
            DorkError::InvalidQuery(s) => "invalid query: "@ + s@,
            DorkError::RateLimited { retry_after_seconds } => "rate limited (retry after "@
                + decimal(retry_after_seconds as nat) + "s)"@,
            DorkError::Auth(s) => "authentication failed: "@ + s@,
            DorkError::Network(s) => "network error: "@ + s@,
            DorkError::Parse(s) => "parse error: "@ + s@,
            DorkError::Backend(s) => "backend error: "@ + s@,
        }
    }

    /// Renders the error as text: a fixed prefix naming the kind of failure,
    /// then its detail.
    pub fn to_string(&self) -> (r: String)
        ensures
            r@ == self.message(),
    {
        let mut out: Vec<char> = Vec::new();
        match self {
            DorkError::InvalidQuery(s) => {
                push_str(&mut out, "invalid query: ");
                push_str(&mut out, s.as_str());
            },
            DorkError::RateLimited { retry_after_seconds } => {
                push_str(&mut out, "rate limited (retry after ");
                let digits = decimal_chars(*retry_after_seconds);
                out.extend_from_slice(digits.as_slice());
                push_str(&mut out, "s)");
            },
            DorkError::Auth(s) => {
                push_str(&mut out, "authentication failed: ");
                push_str(&mut out, s.as_str());
            },
            DorkError::Network(s) => {
                push_str(&mut out, "network error: ");
                push_str(&mut out, s.as_str());
            },
            DorkError::Parse(s) => {
                push_str(&mut out, "parse error: ");
                push_str(&mut out, s.as_str());
            },
            DorkError::Backend(s) => {
                push_str(&mut out, "backend error: ");
                push_str(&mut out, s.as_str());
            },
        }
        string_of(out.as_slice())
    }

    /// The underlying failure this error wraps: present for
    /// [`DorkError::Backend`] only.
    pub fn source(&self) -> (r: Option<&String>)
        ensures
            r == (match self {
                DorkError::Backend(s) => Some(s),
                _ => None::<&String>,
            }),
    {
        match self {
            DorkError::Backend(s) => Some(s),
            _ => None,
        }
    }
}

} // verus!
