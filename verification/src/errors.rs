//! Error taxonomy of the client and the retry classification it drives.
//!
//! Transport-level failures (`NetworkError`) and unparsable responses
//! (`InvalidData`) are retriable; everything else is surfaced immediately.

use vstd::prelude::*;

verus! {

/// The kinds of failure a client operation can report.
#[derive(Clone, Copy, Debug, PartialEq, Eq, Structural)]
pub enum ErrorKind {
    /// Transport-level failure: DNS, connect, TLS, read, HTTP status >= 500.
    NetworkError,
    /// The server response could not be parsed; treated like a network error.
    InvalidData,
    /// A well-formed GraphQL response with a non-empty `errors` array.
    QueryFailed,
    /// Sender-side pre-check: the message expiration time has already passed.
    MessageAlreadyExpired,
    /// The message carries no destination address.
    MessageHasNoDestination,
    /// The shard block lookup failed while sending to one endpoint.
    FetchFirstBlockFailed,
    /// Terminal failure of the send fan-out: no endpoint accepted the message.
    BlockNotFound,
    /// Lifecycle notification delivered to subscription sinks on `suspend`.
    NetworkModuleSuspended,
    /// Lifecycle notification delivered to subscription sinks on `resume`.
    NetworkModuleResumed,
}

/// A structured error: a kind from the taxonomy plus a diagnostic message.
#[derive(Clone, Debug)]
pub struct ClientError {
    pub kind: ErrorKind,
    pub message: String,
}

/// Which kinds the query retry loop is allowed to retry.
pub open spec fn spec_is_retriable(kind: ErrorKind) -> bool {
    kind == ErrorKind::NetworkError || kind == ErrorKind::InvalidData
}

/// Retry is applied only to transport failures and unparsable responses.
pub fn is_retriable(kind: ErrorKind) -> (r: bool)
    ensures
        r == spec_is_retriable(kind),
{
    match kind {
        ErrorKind::NetworkError => true,
        ErrorKind::InvalidData => true,
        _ => false,
    }
}

impl ClientError {
    pub fn new(kind: ErrorKind, message: String) -> (r: ClientError)
        ensures
            r.kind == kind,
            r.message@ == message@,
    {
        ClientError { kind, message }
    }
}

/// The message of the terminal error after all retries are exhausted:
/// the last transport message under the `"Query failed: "` prefix.
pub open spec fn spec_query_failed_message(last: Seq<char>) -> Seq<char> {
    "Query failed: "@ + last
}

/// Builds the terminal retry-exhaustion message from the last transport error.
pub fn query_failed_message(last: &str) -> (r: String)
    ensures
        r@ == spec_query_failed_message(last@),
{
    let mut s = String::new();
    s.append("Query failed: ");
    s.append(last);
    s
}

} // verus!
