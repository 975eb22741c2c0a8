//! Error kinds and the limits that client and worker share.

use crate::text::{decimal, join2, push_decimal};
use vstd::prelude::*;
use vstd::std_specs::convert::FromSpecImpl;

verus! {

/// Seconds allowed for a discovery call.
pub const DISCOVERY_TIMEOUT: u64 = 5;

/// Seconds allowed for a ticket request.
pub const AUTH_TIMEOUT: u64 = 30;

/// Seconds allowed for an inference call.
pub const INFERENCE_TIMEOUT: u64 = 300;

/// How often an operation is attempted before its error is passed on.
pub const MAX_RETRIES: u32 = 3;

/// Seconds to wait after the first, second and third failed attempt.
pub const RETRY_DELAYS: [u64; 3] = [1, 2, 4];

/// Consecutive failures after which a circuit breaker opens.
pub const CIRCUIT_BREAKER_THRESHOLD: u32 = 5;

/// Seconds an open circuit breaker waits before it lets a trial through.
pub const CIRCUIT_BREAKER_TIMEOUT: u64 = 60;

/// What can go wrong between client, coordinator and worker.
#[derive(Debug)]
pub enum TroopError {
    /// A connection could not be made.
    NetworkError(String),
    /// A deadline passed.
    Timeout(String),
    /// The ticket is missing, malformed, expired, or not meant for this worker.
    AuthError(String),
    /// The coordinator knows no worker for the request.
    NoNodesAvailable,
    /// The requester holds fewer credits than the request costs.
    InsufficientCredits { required: u64, available: u64 },
    /// The request cannot be read, or names an unknown model.
    InvalidRequest(String),
    /// The worker answered outside 2xx, or could not be reached.
    WorkerUnavailable(String),
    /// A guarded call was held back.
    CircuitBreakerOpen,
    /// Anything else.
    InternalError(String),
}

pub type TroopResult<T> = Result<T, TroopError>;

impl TroopError {
    /// The text that describes the error.
    pub open spec fn message_text(self) -> Seq<char> {
        match self {
            TroopError::NetworkError(msg) => "Network error: "@ + msg@,
            TroopError::Timeout(msg) => "Timeout: "@ + msg@,
            TroopError::AuthError(msg) => "Authentication error: "@ + msg@,
            TroopError::NoNodesAvailable => "No nodes available to service request"@,
            TroopError::InsufficientCredits { required, available } =>
                "Insufficient credits: need "@ + decimal(required as nat) + ", have "@ + decimal(
                available as nat,
            ),
            TroopError::InvalidRequest(msg) => "Invalid request: "@ + msg@,
            TroopError::WorkerUnavailable(msg) => "Worker unavailable: "@ + msg@,
            TroopError::CircuitBreakerOpen =>
                "Circuit breaker open, service temporarily unavailable"@,
            TroopError::InternalError(msg) => "Internal error: "@ + msg@,
        }
    }

    /// Whether the failure may pass by itself, so that the same call is
    /// worth another attempt: a failed connection, a passed deadline, a
    /// worker that was unavailable.
    pub open spec fn retriable(self) -> bool {
        self is NetworkError || self is Timeout || self is WorkerUnavailable
    }

    /// Whether this is an internal error with the text `text`.
    pub open spec fn is_internal(self, text: Seq<char>) -> bool {
        self matches TroopError::InternalError(msg) && msg@ == text
    }

    /// Whether this is an invalid request with the text `text`.
    pub open spec fn is_invalid_request(self, text: Seq<char>) -> bool {
        self matches TroopError::InvalidRequest(msg) && msg@ == text
    }

    /// Whether this is the error that stands for a failed HTTP exchange
    /// with the text `text`: a timeout where a deadline passed, else a
    /// network error where a connection failed, else an internal error.
    pub open spec fn is_transport_failure(
        self,
        timed_out: bool,
        connect_failed: bool,
        text: Seq<char>,
    ) -> bool {
        if timed_out {
            self matches TroopError::Timeout(msg) && msg@ == text
        } else if connect_failed {
            self matches TroopError::NetworkError(msg) && msg@ == text
        } else {
            self matches TroopError::InternalError(msg) && msg@ == text
        }
    }

    /// Whether this says that a worker was unavailable, with the text `text`.
    pub open spec fn is_worker_unavailable(self, text: Seq<char>) -> bool {
        self matches TroopError::WorkerUnavailable(msg) && msg@ == text
    }

    /// The text that describes the error.
    pub fn message(&self) -> (s: String)
        ensures
            s@ == self.message_text(),
    {
        match self {
            TroopError::NetworkError(msg) => join2("Network error: ", msg.as_str()),
            TroopError::Timeout(msg) => join2("Timeout: ", msg.as_str()),
            TroopError::AuthError(msg) => join2("Authentication error: ", msg.as_str()),
            TroopError::NoNodesAvailable => "No nodes available to service request".to_owned(),
            TroopError::InsufficientCredits { required, available } => {
                let mut s = "Insufficient credits: need ".to_owned();
                push_decimal(&mut s, *required);
                s.append(", have ");
                push_decimal(&mut s, *available);
                s
            },
            TroopError::InvalidRequest(msg) => join2("Invalid request: ", msg.as_str()),
            TroopError::WorkerUnavailable(msg) => join2("Worker unavailable: ", msg.as_str()),
            TroopError::CircuitBreakerOpen =>
                "Circuit breaker open, service temporarily unavailable".to_owned(),
            TroopError::InternalError(msg) => join2("Internal error: ", msg.as_str()),
        }
    }

    /// Whether the same call is worth another attempt after this error.
    pub fn is_retriable(&self) -> (r: bool)
        ensures
            r == self.retriable(),
    {
        match self {
            TroopError::NetworkError(_) => true,
            TroopError::Timeout(_) => true,
            TroopError::WorkerUnavailable(_) => true,
            _ => false,
        }
    }

    /// The error that stands for a failed HTTP exchange: a passed deadline
    /// before a failed connection, and either before anything else.
    pub fn from_transport(timed_out: bool, connect_failed: bool, text: String) -> (e: TroopError)
        ensures
            e == if timed_out {
                TroopError::Timeout(text)
            } else if connect_failed {
                TroopError::NetworkError(text)
            } else {
                TroopError::InternalError(text)
            },
    {
        if timed_out {
            TroopError::Timeout(text)
        } else if connect_failed {
            TroopError::NetworkError(text)
        } else {
            TroopError::InternalError(text)
        }
    }
}

#[verifier::external_type_specification]
#[verifier::external_body]
pub struct ExTransportError(reqwest::Error);

#[verifier::external_type_specification]
#[verifier::external_body]
pub struct ExJsonError(serde_json::Error);

/// Whether a deadline passed somewhere in the chain of causes of `err`.
pub uninterp spec fn timed_out(err: reqwest::Error) -> bool;

/// Whether a connection failed somewhere in the chain of causes of `err`.
pub uninterp spec fn connect_failed(err: reqwest::Error) -> bool;

/// The text that `err` displays.
pub uninterp spec fn shown(err: reqwest::Error) -> Seq<char>;

/// The text that `err` displays.
pub uninterp spec fn json_error_shown(err: serde_json::Error) -> Seq<char>;

/// `reqwest::Error::is_timeout`: whether a deadline passed somewhere in the
/// chain of causes. The answer depends on the error alone: `timed_out` names it.
#[verifier::external_body]
fn transport_timed_out(err: &reqwest::Error) -> (r: bool)
    ensures
        r == timed_out(*err),
{
    err.is_timeout()
}

/// `reqwest::Error::is_connect`: whether a connection failed somewhere in the
/// chain of causes. The answer depends on the error alone: `connect_failed`
/// names it.
#[verifier::external_body]
fn transport_connect_failed(err: &reqwest::Error) -> (r: bool)
    ensures
        r == connect_failed(*err),
{
    err.is_connect()
}

/// The text that `reqwest::Error` displays. It depends on the error alone:
/// `shown` names it.
#[verifier::external_body]
fn transport_text(err: &reqwest::Error) -> (s: String)
    ensures
        s@ == shown(*err),
{
    err.to_string()
}

/// The text that `serde_json::Error` displays. It depends on the error
/// alone: `json_error_shown` names it.
#[verifier::external_body]
fn json_error_text(err: &serde_json::Error) -> (s: String)
    ensures
        s@ == json_error_shown(*err),
{
    err.to_string()
}

impl From<reqwest::Error> for TroopError {
    /// A failed HTTP exchange is a timeout where a deadline passed, else a
    /// network error where a connection failed, else an internal error;
    /// each with the text that the failure displays.
    fn from(err: reqwest::Error) -> (e: TroopError)
        ensures
            e.is_transport_failure(timed_out(err), connect_failed(err), shown(err)),
    {
        let timed_out = transport_timed_out(&err);
        let connect_failed = transport_connect_failed(&err);
        TroopError::from_transport(timed_out, connect_failed, transport_text(&err))
    }
}

impl FromSpecImpl<reqwest::Error> for TroopError {
    open spec fn obeys_from_spec() -> bool {
        false
    }

    open spec fn from_spec(v: reqwest::Error) -> Self {
        arbitrary()
    }
}

impl From<serde_json::Error> for TroopError {
    /// JSON that cannot be read is an invalid request, with the text that
    /// the failure displays.
    fn from(err: serde_json::Error) -> (e: TroopError)
        ensures
            e.is_invalid_request(json_error_shown(err)),
    {
        TroopError::InvalidRequest(json_error_text(&err))
    }
}

impl FromSpecImpl<serde_json::Error> for TroopError {
    open spec fn obeys_from_spec() -> bool {
        false
    }

    open spec fn from_spec(v: serde_json::Error) -> Self {
        arbitrary()
    }
}

} // verus!
