//! Mapping from terminal HTTP status codes to semantic span outcomes.
//!
//! A finished trace transaction carries one of these tags. Specific codes
//! take precedence over their class; every code maps to exactly one tag.

use vstd::prelude::*;

verus! {

/// Semantic outcome tag attached to a finished trace span.
#[derive(Clone, Copy, Debug, PartialEq, Eq, Structural)]
pub enum SpanStatus {
    /// The request completed normally (informational, success or redirect).
    Okay,
    Unauthenticated,
    PermissionDenied,
    NotFound,
    ResourceExhausted,
    AlreadyExists,
    Unimplemented,
    Unavailable,
    InvalidArgument,
    InternalError,
    UnknownError,
}

/// What `map_status` returns for each status code: specific codes first,
/// then the code's class, and `UnknownError` for anything unclassifiable.
pub open spec fn spec_map_status(code: u16) -> SpanStatus {
    if code == 401 {
        SpanStatus::Unauthenticated
    } else if code == 403 {
        SpanStatus::PermissionDenied
    } else if code == 404 {
        SpanStatus::NotFound
    } else if code == 429 {
        SpanStatus::ResourceExhausted
    } else if code == 409 {
        SpanStatus::AlreadyExists
    } else if code == 501 {
        SpanStatus::Unimplemented
    } else if code == 503 {
        SpanStatus::Unavailable
    } else if 100 <= code && code < 400 {
        SpanStatus::Okay
    } else if 400 <= code && code < 500 {
        SpanStatus::InvalidArgument
    } else if 500 <= code && code < 600 {
        SpanStatus::InternalError
    } else {
        SpanStatus::UnknownError
    }
}

/// Map a terminal HTTP status code to the semantic outcome tag used for
/// trace-span finalization. Total over all codes and deterministic.
pub fn map_status(code: u16) -> (r: SpanStatus)
    ensures
        r == spec_map_status(code),
{
    if code == 401 {
        SpanStatus::Unauthenticated
    } else if code == 403 {
        SpanStatus::PermissionDenied
    } else if code == 404 {
        SpanStatus::NotFound
    } else if code == 429 {
        SpanStatus::ResourceExhausted
    } else if code == 409 {
        SpanStatus::AlreadyExists
    } else if code == 501 {
        SpanStatus::Unimplemented
    } else if code == 503 {
        SpanStatus::Unavailable
    } else if 100 <= code && code < 400 {
        SpanStatus::Okay
    } else if 400 <= code && code < 500 {
        SpanStatus::InvalidArgument
    } else if 500 <= code && code < 600 {
        SpanStatus::InternalError
    } else {
        SpanStatus::UnknownError
    }
}

/// The mapper classifies every status code exactly once: the seven specific
/// codes take their own tags, the class fallbacks cover the rest of each
/// class, and everything outside the classes is an unknown error.
pub proof fn lemma_status_mapper_classes(code: u16)
    ensures
        100 <= code < 400 ==> spec_map_status(code) == SpanStatus::Okay,
        400 <= code < 500 && !(code == 401 || code == 403 || code == 404 || code == 429 || code
            == 409) ==> spec_map_status(code) == SpanStatus::InvalidArgument,
        500 <= code < 600 && !(code == 501 || code == 503) ==> spec_map_status(code)
            == SpanStatus::InternalError,
        code < 100 || 600 <= code ==> spec_map_status(code) == SpanStatus::UnknownError,
{
}

} // verus!
