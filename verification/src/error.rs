//! The failures that a caller of the proxy can receive, and the HTTP status
//! under which each one is reported.

use vstd::prelude::*;
use vstd::std_specs::convert::FromSpecImpl;

verus! {

/// The error with which a one-shot receiver resolves when its sender was
/// dropped without a value. It carries no data.
#[verifier::external_type_specification]
#[verifier::external_body]
pub struct ExRecvError(tokio::sync::oneshot::error::RecvError);

/// The error type of the HTTP client. Opaque here: only its text is used.
#[verifier::external_type_specification]
#[verifier::external_body]
pub struct ExClientError(reqwest::Error);

/// Status reported when the proxy itself cannot take or finish the request.
pub const STATUS_SERVICE_UNAVAILABLE: u16 = 503;

/// Status reported when the downstream service failed the request.
pub const STATUS_BAD_GATEWAY: u16 = 502;

/// Why a request did not produce a result.
#[derive(Debug)]
pub enum ProxyError {
    /// The submission queue is closed: nothing will pick the request up.
    BatcherUnavailable,
    /// The admission pool was closed while the batch was about to be sent.
    ServiceShutdown,
    /// The downstream service answered with a status outside 200..=299.
    Upstream { code: u16, body: String },
    /// The downstream service could not be reached or its answer not read.
    Request(String),
    /// The downstream service answered with the wrong number of results.
    CountMismatch { expected: usize, got: usize },
    /// The outcome slot was dropped before anything was written to it.
    Receiver,
}

/// The status codes that stand for success.
pub open spec fn is_success_code(code: u16) -> bool {
    200 <= code < 300
}

/// The text that the HTTP client gives for one of its errors.
pub uninterp spec fn client_text(e: reqwest::Error) -> Seq<char>;

/// Calls `to_string` on an error of the HTTP client, which renders it through
/// its `Display` impl. The contract gives that text its name and claims
/// nothing else of it.
#[verifier::external_body]
pub(crate) fn client_error_text(e: &reqwest::Error) -> (text: String)
    ensures
        text@ == client_text(*e),
{
    e.to_string()
}

impl ProxyError {
    /// True of the two failures that mean that the proxy itself cannot take
    /// or finish the request.
    pub open spec fn is_unavailable(self) -> bool {
        self is BatcherUnavailable || self is ServiceShutdown
    }

    /// The HTTP status under which this failure is reported to the caller:
    /// 503 for the two failures of the proxy itself, 502 for every other.
    pub open spec fn spec_status_code(self) -> u16 {
        if self.is_unavailable() {
            STATUS_SERVICE_UNAVAILABLE
        } else {
            STATUS_BAD_GATEWAY
        }
    }

    /// The HTTP status under which this failure is reported: 503 when the
    /// batcher is gone or the service is shutting down, and 502 for every
    /// other failure. The status of a downstream answer is kept in the
    /// failure and does not become the proxy's own.
    pub fn status_code(&self) -> (code: u16)
        ensures
            code == self.spec_status_code(),
    {
        match self {
            ProxyError::BatcherUnavailable => STATUS_SERVICE_UNAVAILABLE,
            ProxyError::ServiceShutdown => STATUS_SERVICE_UNAVAILABLE,
            ProxyError::Upstream { .. } => STATUS_BAD_GATEWAY,
            ProxyError::Request(_) => STATUS_BAD_GATEWAY,
            ProxyError::CountMismatch { .. } => STATUS_BAD_GATEWAY,
            ProxyError::Receiver => STATUS_BAD_GATEWAY,
        }
    }
}

impl Clone for ProxyError {
    fn clone(&self) -> (copy: Self)
        ensures
            copy == *self,
    {
        match self {
            ProxyError::BatcherUnavailable => ProxyError::BatcherUnavailable,
            ProxyError::ServiceShutdown => ProxyError::ServiceShutdown,
            ProxyError::Upstream { code, body } => ProxyError::Upstream {
                code: *code,
                body: body.clone(),
            },
            ProxyError::Request(message) => ProxyError::Request(message.clone()),
            ProxyError::CountMismatch { expected, got } => ProxyError::CountMismatch {
                expected: *expected,
                got: *got,
            },
            ProxyError::Receiver => ProxyError::Receiver,
        }
    }
}

impl From<tokio::sync::oneshot::error::RecvError> for ProxyError {
    fn from(e: tokio::sync::oneshot::error::RecvError) -> (err: Self) {
        ProxyError::Receiver
    }
}

impl FromSpecImpl<tokio::sync::oneshot::error::RecvError> for ProxyError {
    open spec fn obeys_from_spec() -> bool {
        true
    }

    open spec fn from_spec(e: tokio::sync::oneshot::error::RecvError) -> Self {
        ProxyError::Receiver
    }
}

impl From<reqwest::Error> for ProxyError {
    /// A failure of the HTTP client becomes `Request`, with the client's own
    /// text for it.
    fn from(e: reqwest::Error) -> (err: Self)
        ensures
            err is Request,
            err->0@ == client_text(e),
    {
        ProxyError::Request(client_error_text(&e))
    }
}

/// The message of the failure is known by its text only, so the conversion
/// has no model as a value: what it promises is the `ensures` of `from`.
impl FromSpecImpl<reqwest::Error> for ProxyError {
    open spec fn obeys_from_spec() -> bool {
        false
    }

    open spec fn from_spec(e: reqwest::Error) -> Self {
        ProxyError::Request(arbitrary())
    }
}

} // verus!
