//! Requests, responses and transport events as the executor sees them: plain
//! values. The transport collaborator turns the wire into one
//! [`TransportEvent`] per attempt; everything decided from such an event is
//! verified.

use vstd::prelude::*;

verus! {

/// An HTTP method. Only GET, POST, PUT and DELETE are supported; any other
/// method is rejected before a request is dispatched.
#[derive(Clone, Debug)]
pub enum HttpMethod {
    Get,
    Post,
    Put,
    Delete,
    /// A method outside the supported set, by its name.
    Other(String),
}

impl HttpMethod {
    pub open spec fn spec_is_supported(self) -> bool {
        !(self is Other)
    }

    pub fn is_supported(&self) -> (r: bool)
        ensures
            r == self.spec_is_supported(),
    {
        match self {
            HttpMethod::Other(_) => false,
            _ => true,
        }
    }
}

/// One logical request, owned by the caller and borrowed read-only across
/// attempts. The body is a fully materialized byte buffer — never a one-shot
/// stream — so it can be resent unchanged on every attempt.
#[derive(Clone, Debug)]
pub struct Request {
    pub url: String,
    pub method: HttpMethod,
    pub body: Vec<u8>,
    pub headers: Vec<(String, String)>,
}

/// What one attempt brought back from the wire: a numeric status code and
/// the response body bytes.
#[derive(Clone, Debug)]
pub struct HttpResponse {
    pub status: u16,
    pub body: Vec<u8>,
}

/// The mathematical value of an [`HttpResponse`].
pub struct ResponseModel {
    pub status: u16,
    pub body: Seq<u8>,
}

impl View for HttpResponse {
    type V = ResponseModel;

    open spec fn view(&self) -> ResponseModel {
        ResponseModel { status: self.status, body: self.body@ }
    }
}

/// A transport-level failure: either a timeout, which is retryable, or
/// anything else, which is fatal.
#[derive(Clone, Debug)]
pub enum TransportFailure {
    Timeout,
    Other(String),
}

/// The outcome of one physical attempt, as handed to the executor by the
/// transport collaborator.
#[derive(Clone, Debug)]
pub enum TransportEvent {
    Response(HttpResponse),
    Failure(TransportFailure),
}

/// The mathematical value of a [`TransportEvent`].
pub enum EventModel {
    Response(ResponseModel),
    Timeout,
    Failed(Seq<char>),
}

impl View for TransportEvent {
    type V = EventModel;

    open spec fn view(&self) -> EventModel {
        match self {
            TransportEvent::Response(resp) => EventModel::Response(resp@),
            TransportEvent::Failure(TransportFailure::Timeout) => EventModel::Timeout,
            TransportEvent::Failure(TransportFailure::Other(d)) => EventModel::Failed(d@),
        }
    }
}

} // verus!
