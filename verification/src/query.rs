//! The query retry state machine.
//!
//! Each attempt of a query ends in one of three classified outcomes: a
//! transport error (retriable), a logical error (a well-formed GraphQL
//! response with a non-empty `errors` array, propagated unchanged), or data.
//! `network_retries_count = N` permits `N + 1` total attempts on transport
//! errors; when the budget is exhausted the query fails with the last
//! transport message under the `"Query failed: "` prefix.

use vstd::prelude::*;

use crate::errors::ClientError;
use crate::errors::ErrorKind;
use crate::errors::spec_query_failed_message;

verus! {

/// The classified outcome of one query attempt.
#[derive(Debug, Clone)]
pub enum AttemptOutcome {
    /// Any failure before a well-formed response was parsed: DNS, connect,
    /// TLS, read, HTTP status >= 500, or a malformed JSON envelope.
    Transport(String),
    /// A well-formed response reporting application-level failure.
    Logical(String),
    /// A well-formed response carrying data.
    Data(String),
}

/// What the retry loop decides after one attempt, given how many retries are
/// still allowed.
#[derive(Debug, Clone)]
pub enum QueryAction {
    /// The attempt produced data: deliver it.
    Deliver(String),
    /// The attempt produced a logical error: propagate it without retry.
    Propagate(ClientError),
    /// A transport error with retries left: invalidate the cached endpoint,
    /// sleep a backoff, re-resolve, and try again.
    Retry,
    /// A transport error with no retries left: fail terminally.
    Fail(ClientError),
}

/// What a correct single retry step decides: data is delivered, logical
/// errors propagate unchanged, transport errors retry while the budget
/// lasts and otherwise fail with the prefixed message.
pub open spec fn spec_query_step_ok(
    outcome: AttemptOutcome,
    retries_left: u32,
    a: QueryAction,
) -> bool {
    match outcome {
        AttemptOutcome::Data(d) => a matches QueryAction::Deliver(r) && r@ == d@,
        AttemptOutcome::Logical(m) => a matches QueryAction::Propagate(e) && e.kind
            == ErrorKind::QueryFailed && e.message@ == m@,
        AttemptOutcome::Transport(m) => if retries_left > 0 {
            a is Retry
        } else {
            a matches QueryAction::Fail(e) && e.kind == ErrorKind::NetworkError && e.message@
                == spec_query_failed_message(m@)
        },
    }
}

/// Decides the next step of the retry loop from one classified outcome.
pub fn query_step(outcome: &AttemptOutcome, retries_left: u32) -> (a: QueryAction)
    ensures
        spec_query_step_ok(*outcome, retries_left, a),
{
    match outcome {
        AttemptOutcome::Data(d) => QueryAction::Deliver(d.clone()),
        AttemptOutcome::Logical(m) => QueryAction::Propagate(
            ClientError::new(ErrorKind::QueryFailed, m.clone()),
        ),
        AttemptOutcome::Transport(m) => {
            if retries_left > 0 {
                QueryAction::Retry
            } else {
                QueryAction::Fail(
                    ClientError::new(
                        ErrorKind::NetworkError,
                        crate::errors::query_failed_message(m.as_str()),
                    ),
                )
            }
        },
    }
}

/// What a correct whole query run looks like: `attempts` attempts were made,
/// every attempt before the last ended in a transport error, and the result
/// reflects the last attempt's outcome. `retries` permits `retries + 1`
/// attempts in total.
pub open spec fn spec_query_run_ok(
    outcomes: Seq<AttemptOutcome>,
    retries: u32,
    r: Result<String, ClientError>,
    attempts: usize,
) -> bool {
    &&& 1 <= attempts <= retries + 1
    &&& attempts <= outcomes.len()
    &&& forall|k: int| 0 <= k < attempts - 1 ==> outcomes[k] is Transport
    &&& {
        let last = outcomes[attempts - 1];
        match last {
            AttemptOutcome::Data(d) => r matches Result::Ok(v) && v@ == d@,
            AttemptOutcome::Logical(m) => r matches Result::Err(e) && e.kind
                == ErrorKind::QueryFailed && e.message@ == m@,
            AttemptOutcome::Transport(m) => {
                &&& attempts == retries + 1
                &&& r matches Result::Err(e) && e.kind == ErrorKind::NetworkError && e.message@
                    == spec_query_failed_message(m@)
            },
        }
    }
}

/// Runs the whole retry loop against a script of per-attempt outcomes, as
/// the environment produced them, and reports the result together with the
/// number of attempts actually made.
///
/// The environment answers every attempt, so the script must be long enough
/// to cover the largest possible number of attempts.
pub fn run_query(outcomes: &Vec<AttemptOutcome>, retries: u32) -> (r: (
    Result<String, ClientError>,
    usize,
))
    requires
        outcomes@.len() > retries,
    ensures
        spec_query_run_ok(outcomes@, retries, r.0, r.1),
{
    let n = outcomes.len();
    let mut attempts: usize = 0;
    loop
        invariant
            attempts <= retries < n == outcomes@.len(),
            forall|k: int| 0 <= k < attempts ==> outcomes@[k] is Transport,
        decreases retries - attempts,
    {
        let retries_left = retries - attempts as u32;
        let action = query_step(&outcomes[attempts], retries_left);
        attempts += 1;
        match action {
            QueryAction::Deliver(d) => {
                return (Ok(d), attempts);
            },
            QueryAction::Propagate(e) => {
                return (Err(e), attempts);
            },
            QueryAction::Fail(e) => {
                return (Err(e), attempts);
            },
            QueryAction::Retry => {
            },
        }
    }
}

/// Retry bound: when every attempt ends in a transport error, the query
/// fails after exactly `retries + 1` attempts, with the last transport
/// message under the `"Query failed: "` prefix.
pub proof fn lemma_retry_bound(
    outcomes: Seq<AttemptOutcome>,
    retries: u32,
    r: Result<String, ClientError>,
    attempts: usize,
)
    requires
        spec_query_run_ok(outcomes, retries, r, attempts),
        forall|k: int| 0 <= k < outcomes.len() ==> outcomes[k] is Transport,
    ensures
        attempts == retries + 1,
        r matches Result::Err(e) && e.kind == ErrorKind::NetworkError && e.message@
            == spec_query_failed_message(outcomes[retries as int]->Transport_0@),
{
}

} // verus!
