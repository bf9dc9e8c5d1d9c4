//! Reduces the service's multi-provider answer to the outcome of one poll.

use vstd::prelude::*;
use crate::schema::{GetLogsResult, LogEntry, MultiGetLogsResult, RpcError, RpcService, TransportError};

verus! {

/// The outcome of one poll cycle; exactly one of these holds.
#[derive(Debug, PartialEq, Eq)]
pub enum PollOutcome {
    /// The providers agreed on these records, in the order they returned them.
    ConsistentSuccess(Vec<LogEntry>),
    /// The providers agreed that the service rejected the query.
    ConsistentApplicationError(RpcError),
    /// The providers disagreed; each one's own result.
    Inconsistent(Vec<(RpcService, GetLogsResult)>),
    /// The remote call itself failed.
    TransportFailure(TransportError),
}

/// The outcome that an answer of the remote call stands for.
pub open spec fn outcome_of(answer: Result<MultiGetLogsResult, TransportError>) -> PollOutcome {
    match answer {
        Ok(MultiGetLogsResult::Consistent(Ok(logs))) => PollOutcome::ConsistentSuccess(logs),
        Ok(MultiGetLogsResult::Consistent(Err(e))) => PollOutcome::ConsistentApplicationError(e),
        Ok(MultiGetLogsResult::Inconsistent(results)) => PollOutcome::Inconsistent(results),
        Err(e) => PollOutcome::TransportFailure(e),
    }
}

/// Classifies the answer of the remote call: agreed records, agreed service
/// error, disagreement (never settled by a majority), or transport failure.
pub fn resolve(answer: Result<MultiGetLogsResult, TransportError>) -> (r: PollOutcome)
    ensures
        r == outcome_of(answer),
{
    match answer {
        Ok(MultiGetLogsResult::Consistent(Ok(logs))) => PollOutcome::ConsistentSuccess(logs),
        Ok(MultiGetLogsResult::Consistent(Err(e))) => PollOutcome::ConsistentApplicationError(e),
        Ok(MultiGetLogsResult::Inconsistent(results)) => PollOutcome::Inconsistent(results),
        Err(e) => PollOutcome::TransportFailure(e),
    }
}

/// Resolving is deterministic: equal answers give equal outcomes, so the
/// same variant, and every answer gives exactly one outcome.
pub proof fn lemma_resolve_deterministic(
    a: Result<MultiGetLogsResult, TransportError>,
    b: Result<MultiGetLogsResult, TransportError>,
)
    requires
        a == b,
    ensures
        outcome_of(a) == outcome_of(b),
        outcome_of(a) is ConsistentSuccess || outcome_of(a) is ConsistentApplicationError
            || outcome_of(a) is Inconsistent || outcome_of(a) is TransportFailure,
{
}

} // verus!
