//! Data-transfer types exchanged with the service's callers.
//!
//! These are plain records: the HTTP layer that serializes them lives
//! outside this library and keeps its own mirror types.

use vstd::prelude::*;

verus! {

/// A caller's question.
pub struct AskRequest {
    /// The question text, arbitrary and possibly empty.
    pub question: String,
}

/// A successful answer, with metadata about how it was produced.
pub struct AskResponse {
    /// The answer text.
    pub answer: String,
    /// Identifier of the implementation that produced the answer.
    pub source: String,
    /// Whether a system prompt was prepended before dispatch.
    pub system_prompt_applied: bool,
}

/// Health-check report.
pub struct HealthResponse {
    /// Overall status, e.g. "ok".
    pub status: String,
    /// Application version string.
    pub version: String,
    /// Whether the live provider is enabled.
    pub gigachat_enabled: bool,
}

/// The uniform error payload returned to callers.
pub struct ErrorResponse {
    /// Human-readable description of the error.
    pub error: String,
    /// Optional machine-readable error code.
    pub code: Option<String>,
}

impl ErrorResponse {
    /// Builds an error payload without a code.
    pub fn new(error: String) -> (r: Self)
        ensures
            r.error@ == error@,
            r.code is None,
    {
        Self { error, code: None }
    }

    /// Builds an error payload with a machine-readable code.
    pub fn with_code(error: String, code: String) -> (r: Self)
        ensures
            r.error@ == error@,
            r.code matches Some(c) && c@ == code@,
    {
        let mut response = Self::new(error);
        response.code = Some(code);
        response
    }
}

} // verus!
