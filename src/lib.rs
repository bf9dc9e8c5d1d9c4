//! A recurring subscription to blockchain log records.
//!
//! The library holds the logic of a subscription: a validated specification
//! built from optional fields, the remote query that one poll cycle sends, the
//! reduction of a multi-provider answer to a single outcome, and the plan of
//! which records reach the caller's handler and which failure is reported.
//! The host program owns the timer, the remote call and the handler itself.

mod schema;
mod subscription;
mod poll;
mod resolver;
mod dispatch;

pub use schema::{
    BlockTag, GetLogsArgs, GetLogsResult, LogEntry, MultiGetLogsResult, RpcError, RpcService,
    RpcServices, Topic, TransportError,
};
pub use subscription::{
    build_result, empty_builder, lemma_complete_builder_succeeds,
    lemma_missing_required_field_fails, lemma_zero_interval_rejected, missing_field, spec_of,
    EthGetLogs, EthGetLogsBuilder, EthGetLogsBuilderError, DEFAULT_CYCLES, DEFAULT_MIN_AGREEMENT,
};
pub use poll::{poll_request, PollRequest};
pub use resolver::{lemma_resolve_deterministic, outcome_of, resolve, PollOutcome};
pub use dispatch::{
    deliveries_of, dispatch, lemma_failure_delivers_nothing, lemma_replay_same_plan,
    lemma_success_delivers_each_record_once, plan_dispatch, report_of, DispatchPlan, PollReport,
};
