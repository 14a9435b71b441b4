//! The failure taxonomy: retryable failure classes, the wire shape of the
//! service's error payload, and the typed errors that cross the executor
//! boundary. Every retryable condition is resolved inside the executor; only
//! the terminal kinds below ever reach a caller.

use vstd::prelude::*;

verus! {

/// The three classes of transient failure, each driving its own retry budget.
#[derive(Clone, Copy, Debug, PartialEq, Eq, Structural)]
pub enum FailureClass {
    RateLimit,
    ServerFailure,
    Timeout,
}

/// The structured error payload the service sends with a non-2xx response:
/// a kind string (called `type` on the wire) and a human-readable message.
#[derive(Clone, Debug)]
pub struct ApifyApiErrorRaw {
    pub kind: String,
    pub message: String,
}

/// The envelope the payload arrives in: a JSON object whose `error` field
/// holds the payload. A body without the envelope is tolerated as well.
#[derive(Clone, Debug)]
pub struct ApifyApiErrorRawWrapper {
    pub error: ApifyApiErrorRaw,
}

/// A terminal outcome of a logical request. Callers should treat every one
/// of these as non-retryable: the executor has already spent whatever retry
/// budget applied.
#[derive(Debug)]
pub enum ApifyClientError {
    /// HTTP 404, carrying the message of the service's error payload.
    NotFound(String),
    /// Any other non-retryable 3xx/4xx status: the payload's kind string and
    /// message.
    ApiError(String, String),
    /// One retry budget ran out; carries the failure class and the number of
    /// retries performed, which equals the configured maximum for the class.
    MaxRetriesReached(FailureClass, u8),
    /// A non-2xx response whose body did not match the expected error
    /// schema: an upstream contract violation, never retried.
    MalformedErrorPayload,
    /// A transport failure other than a timeout; fatal.
    UnknownTransportError(String),
    /// The caller asked for a method outside GET/POST/PUT/DELETE; rejected
    /// before any network activity.
    UnsupportedMethod,
}

/// The mathematical value of an [`ApifyClientError`]: the same variants over
/// character sequences instead of heap strings.
pub enum ErrorModel {
    NotFound(Seq<char>),
    ApiError(Seq<char>, Seq<char>),
    MaxRetriesReached(FailureClass, u8),
    MalformedErrorPayload,
    UnknownTransportError(Seq<char>),
    UnsupportedMethod,
}

impl View for ApifyClientError {
    type V = ErrorModel;

    open spec fn view(&self) -> ErrorModel {
        match self {
            ApifyClientError::NotFound(m) => ErrorModel::NotFound(m@),
            ApifyClientError::ApiError(k, m) => ErrorModel::ApiError(k@, m@),
            ApifyClientError::MaxRetriesReached(class, n) => ErrorModel::MaxRetriesReached(
                *class,
                *n,
            ),
            ApifyClientError::MalformedErrorPayload => ErrorModel::MalformedErrorPayload,
            ApifyClientError::UnknownTransportError(d) => ErrorModel::UnknownTransportError(d@),
            ApifyClientError::UnsupportedMethod => ErrorModel::UnsupportedMethod,
        }
    }
}

} // verus!
