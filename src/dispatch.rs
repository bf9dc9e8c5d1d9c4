//! Decides, for one poll cycle, which records reach the handler and which
//! failure is reported.

use vstd::prelude::*;
use crate::schema::{GetLogsResult, LogEntry, MultiGetLogsResult, RpcError, RpcService, TransportError};
use crate::resolver::{outcome_of, resolve, PollOutcome};

verus! {

/// A failure of one poll cycle, for the host's observability channel. None of
/// them ends the subscription: the next tick polls again.
#[derive(Debug, PartialEq, Eq)]
pub enum PollReport {
    /// The service rejected the query.
    ApplicationError(RpcError),
    /// The providers disagreed; each one's own result.
    Inconsistency(Vec<(RpcService, GetLogsResult)>),
    /// The remote call itself failed.
    TransportFailure(TransportError),
}

/// What the host does after one poll: hand each record of `deliveries` to the
/// handler, in order, and report `report` if there is one.
#[derive(Debug, PartialEq, Eq)]
pub struct DispatchPlan {
    pub deliveries: Vec<LogEntry>,
    pub report: Option<PollReport>,
}

/// The records that reach the handler for outcome `o`, in order.
pub open spec fn deliveries_of(o: PollOutcome) -> Seq<LogEntry> {
    match o {
        PollOutcome::ConsistentSuccess(logs) => logs@,
        _ => Seq::empty(),
    }
}

/// The failure reported for outcome `o`, if any.
pub open spec fn report_of(o: PollOutcome) -> Option<PollReport> {
    match o {
        PollOutcome::ConsistentSuccess(_) => None,
        PollOutcome::ConsistentApplicationError(e) => Some(PollReport::ApplicationError(e)),
        PollOutcome::Inconsistent(results) => Some(PollReport::Inconsistency(results)),
        PollOutcome::TransportFailure(e) => Some(PollReport::TransportFailure(e)),
    }
}

/// Plans the delivery of one outcome: every agreed record, once each and in
/// the providers' order; nothing on any failure, which is reported instead.
pub fn plan_dispatch(outcome: PollOutcome) -> (r: DispatchPlan)
    ensures
        r.deliveries@ == deliveries_of(outcome),
        r.report == report_of(outcome),
{
    match outcome {
        PollOutcome::ConsistentSuccess(logs) => DispatchPlan { deliveries: logs, report: None },
        PollOutcome::ConsistentApplicationError(e) => DispatchPlan {
            deliveries: Vec::new(),
            report: Some(PollReport::ApplicationError(e)),
        },
        PollOutcome::Inconsistent(results) => DispatchPlan {
            deliveries: Vec::new(),
            report: Some(PollReport::Inconsistency(results)),
        },
        PollOutcome::TransportFailure(e) => DispatchPlan {
            deliveries: Vec::new(),
            report: Some(PollReport::TransportFailure(e)),
        },
    }
}

/// Resolves the answer of the remote call and plans its delivery.
pub fn dispatch(answer: Result<MultiGetLogsResult, TransportError>) -> (r: DispatchPlan)
    ensures
        r.deliveries@ == deliveries_of(outcome_of(answer)),
        r.report == report_of(outcome_of(answer)),
{
    plan_dispatch(resolve(answer))
}

/// An agreed sequence of N records reaches the handler as exactly those N
/// records, in the same order, none skipped or repeated, with no report.
pub proof fn lemma_success_delivers_each_record_once(logs: Vec<LogEntry>)
    ensures
        deliveries_of(PollOutcome::ConsistentSuccess(logs)).len() == logs@.len(),
        forall|i: int|
            0 <= i < logs@.len() ==> #[trigger] deliveries_of(
                PollOutcome::ConsistentSuccess(logs),
            )[i] == logs@[i],
        report_of(PollOutcome::ConsistentSuccess(logs)) is None,
{
}

/// A service error, a disagreement or a transport failure reaches the handler
/// with no record, and is reported once.
pub proof fn lemma_failure_delivers_nothing(o: PollOutcome)
    requires
        !(o is ConsistentSuccess),
    ensures
        deliveries_of(o).len() == 0,
        report_of(o) is Some,
{
}

/// Replaying an answer gives the same deliveries and the same report as the
/// first time: nothing in the path from answer to plan keeps state.
pub proof fn lemma_replay_same_plan(
    first: Result<MultiGetLogsResult, TransportError>,
    replay: Result<MultiGetLogsResult, TransportError>,
)
    requires
        first == replay,
    ensures
        deliveries_of(outcome_of(first)) == deliveries_of(outcome_of(replay)),
        report_of(outcome_of(first)) == report_of(outcome_of(replay)),
{
}

} // verus!
