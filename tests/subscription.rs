use evm_logs_timer::{
    dispatch, plan_dispatch, poll_request, resolve, BlockTag, DispatchPlan, EthGetLogs,
    EthGetLogsBuilder, EthGetLogsBuilderError, LogEntry, MultiGetLogsResult, PollOutcome,
    PollReport, RpcError, RpcService, RpcServices, TransportError, DEFAULT_CYCLES,
    DEFAULT_MIN_AGREEMENT,
};

fn log(index: u128) -> LogEntry {
    LogEntry {
        address: "0xabc".to_string(),
        topics: vec!["0xtopic".to_string()],
        data: format!("0x{:02x}", index),
        block_number: Some(100 + index),
        block_hash: Some("0xblock".to_string()),
        transaction_hash: Some(format!("0xtx{}", index)),
        transaction_index: Some(0),
        log_index: Some(index),
        removed: false,
    }
}

fn full_builder() -> EthGetLogsBuilder {
    EthGetLogs::builder()
        .address("0xabc")
        .from_block(BlockTag::Number(100))
        .interval(30)
        .rpc_services(RpcServices::EthMainnet)
}

fn scenario_spec() -> EthGetLogs {
    full_builder().build().unwrap()
}

fn missing(name: &'static str) -> Result<EthGetLogs, EthGetLogsBuilderError> {
    Err(EthGetLogsBuilderError::RequiredFieldMissing(name))
}

#[test]
fn build_without_from_block_names_it() {
    let b = EthGetLogs::builder()
        .address("0xabc")
        .interval(30)
        .rpc_services(RpcServices::EthMainnet);
    assert_eq!(b.build(), missing("from_block"));
}

#[test]
fn build_without_interval_names_it() {
    let b = EthGetLogs::builder()
        .address("0xabc")
        .from_block(BlockTag::Latest)
        .rpc_services(RpcServices::EthMainnet);
    assert_eq!(b.build(), missing("interval"));
}

#[test]
fn build_without_rpc_services_names_it() {
    let b = EthGetLogs::builder()
        .address("0xabc")
        .from_block(BlockTag::Latest)
        .interval(5);
    assert_eq!(b.build(), missing("rpc_services"));
}

#[test]
fn build_without_address_names_it() {
    let b = EthGetLogs::builder()
        .from_block(BlockTag::Latest)
        .interval(5)
        .rpc_services(RpcServices::EthSepolia);
    assert_eq!(b.build(), missing("address"));
}

#[test]
fn build_of_empty_builder_names_from_block_first() {
    assert_eq!(EthGetLogs::builder().build(), missing("from_block"));
    assert_eq!(EthGetLogsBuilder::default().build(), missing("from_block"));
}

#[test]
fn build_with_required_fields_uses_default_budget() {
    let s = scenario_spec();
    assert_eq!(s.address, "0xabc");
    assert_eq!(s.from_block, BlockTag::Number(100));
    assert_eq!(s.to_block, None);
    assert_eq!(s.topics, None);
    assert_eq!(s.interval, 30);
    assert_eq!(s.rpc_services, RpcServices::EthMainnet);
    assert_eq!(s.cycles, 30_000_000_000);
    assert_eq!(s.cycles, DEFAULT_CYCLES);
    assert_eq!(s.min_agreement, 1);
    assert_eq!(s.min_agreement, DEFAULT_MIN_AGREEMENT);
}

#[test]
fn build_keeps_caller_budget_and_optional_fields() {
    let topics = vec![vec!["0xa".to_string(), "0xb".to_string()], vec![]];
    let s = full_builder()
        .cycles(5)
        .to_block(BlockTag::Finalized)
        .topics(topics.clone())
        .min_agreement(2)
        .build()
        .unwrap();
    assert_eq!(s.cycles, 5);
    assert_eq!(s.to_block, Some(BlockTag::Finalized));
    assert_eq!(s.topics, Some(topics));
    assert_eq!(s.min_agreement, 2);
}

#[test]
fn setters_last_write_wins() {
    let s = full_builder()
        .address("0xdef")
        .interval(60)
        .from_block(BlockTag::Safe)
        .build()
        .unwrap();
    assert_eq!(s.address, "0xdef");
    assert_eq!(s.interval, 60);
    assert_eq!(s.from_block, BlockTag::Safe);
}

#[test]
fn poll_request_wraps_address_and_carries_fields() {
    let spec = full_builder()
        .to_block(BlockTag::Latest)
        .topics(vec![vec!["0xt".to_string()]])
        .cycles(7)
        .build()
        .unwrap();
    let r = poll_request(spec);
    assert_eq!(r.args.addresses, vec!["0xabc".to_string()]);
    assert_eq!(r.args.from_block, Some(BlockTag::Number(100)));
    assert_eq!(r.args.to_block, Some(BlockTag::Latest));
    assert_eq!(r.args.topics, Some(vec![vec!["0xt".to_string()]]));
    assert_eq!(r.rpc_services, RpcServices::EthMainnet);
    assert_eq!(r.min_agreement, 1);
    assert_eq!(r.cycles, 7);
}

#[test]
fn resolve_classifies_each_answer() {
    assert_eq!(
        resolve(Ok(MultiGetLogsResult::Consistent(Ok(vec![log(1)])))),
        PollOutcome::ConsistentSuccess(vec![log(1)])
    );
    let e = RpcError::ValidationError("bad filter".to_string());
    assert_eq!(
        resolve(Ok(MultiGetLogsResult::Consistent(Err(e.clone())))),
        PollOutcome::ConsistentApplicationError(e)
    );
    let results = vec![(RpcService::Provider(1), Ok(vec![])), (RpcService::Provider(2), Ok(vec![log(1)]))];
    assert_eq!(
        resolve(Ok(MultiGetLogsResult::Inconsistent(results.clone()))),
        PollOutcome::Inconsistent(results)
    );
    let t = TransportError { code: 2, message: "unreachable".to_string() };
    assert_eq!(resolve(Err(t.clone())), PollOutcome::TransportFailure(t));
}

#[test]
fn resolve_is_deterministic() {
    let make = || {
        Ok(MultiGetLogsResult::Inconsistent(vec![
            (RpcService::Custom("a".to_string()), Ok(vec![log(3)])),
            (RpcService::Custom("b".to_string()), Err(RpcError::ProviderError("down".to_string()))),
        ]))
    };
    assert_eq!(resolve(make()), resolve(make()));
}

#[test]
fn success_delivers_every_record_in_order() {
    let logs: Vec<LogEntry> = (0..5).map(log).collect();
    let plan = plan_dispatch(PollOutcome::ConsistentSuccess(logs.clone()));
    assert_eq!(plan.deliveries.len(), 5);
    assert_eq!(plan.deliveries, logs);
    assert_eq!(plan.report, None);
}

#[test]
fn success_with_no_records_delivers_nothing() {
    let plan = plan_dispatch(PollOutcome::ConsistentSuccess(vec![]));
    assert_eq!(plan, DispatchPlan { deliveries: vec![], report: None });
}

#[test]
fn failures_deliver_nothing() {
    let e = RpcError::JsonRpcError { code: -32000, message: "bad".to_string() };
    let plan = plan_dispatch(PollOutcome::ConsistentApplicationError(e.clone()));
    assert!(plan.deliveries.is_empty());
    assert_eq!(plan.report, Some(PollReport::ApplicationError(e)));

    let results = vec![(RpcService::Provider(7), Ok(vec![log(1)]))];
    let plan = plan_dispatch(PollOutcome::Inconsistent(results.clone()));
    assert!(plan.deliveries.is_empty());
    assert_eq!(plan.report, Some(PollReport::Inconsistency(results)));

    let t = TransportError { code: 5, message: "trap".to_string() };
    let plan = plan_dispatch(PollOutcome::TransportFailure(t.clone()));
    assert!(plan.deliveries.is_empty());
    assert_eq!(plan.report, Some(PollReport::TransportFailure(t)));
}

#[test]
fn replaying_an_answer_gives_the_same_plan() {
    let make = || Ok(MultiGetLogsResult::Consistent(Ok(vec![log(1), log(2), log(3)])));
    let first = dispatch(make());
    let replay = dispatch(make());
    assert_eq!(first, replay);
    assert_eq!(first.deliveries, vec![log(1), log(2), log(3)]);
}

#[test]
fn scenario_consistent_logs_reach_handler_in_order() {
    let spec = scenario_spec();
    let request = poll_request(spec);
    assert_eq!(request.args.addresses, vec!["0xabc".to_string()]);
    let plan = dispatch(Ok(MultiGetLogsResult::Consistent(Ok(vec![log(1), log(2)]))));
    let mut seen: Vec<LogEntry> = Vec::new();
    for entry in plan.deliveries {
        seen.push(entry);
    }
    assert_eq!(seen, vec![log(1), log(2)]);
    assert_eq!(plan.report, None);
}

#[test]
fn scenario_application_error_is_reported() {
    let _ = poll_request(scenario_spec());
    let e = RpcError::ValidationError("bad filter".to_string());
    let plan = dispatch(Ok(MultiGetLogsResult::Consistent(Err(e.clone()))));
    assert!(plan.deliveries.is_empty());
    assert_eq!(plan.report, Some(PollReport::ApplicationError(e)));
}

#[test]
fn scenario_inconsistency_is_reported_with_both_results() {
    let _ = poll_request(scenario_spec());
    let results = vec![
        (RpcService::Provider(1), Ok(vec![log(1)])),
        (RpcService::Provider(2), Ok(vec![])),
    ];
    let plan = dispatch(Ok(MultiGetLogsResult::Inconsistent(results.clone())));
    assert!(plan.deliveries.is_empty());
    match plan.report {
        Some(PollReport::Inconsistency(r)) => {
            assert_eq!(r.len(), 2);
            assert_eq!(r, results);
        }
        other => panic!("expected an inconsistency, got {:?}", other),
    }
}

#[test]
fn scenario_transport_failure_is_reported() {
    let spec = scenario_spec();
    let t = TransportError { code: 2, message: "canister unreachable".to_string() };
    let plan = dispatch(Err(t.clone()));
    assert!(plan.deliveries.is_empty());
    assert_eq!(plan.report, Some(PollReport::TransportFailure(t)));
    assert_eq!(poll_request(spec).cycles, DEFAULT_CYCLES);
}

#[test]
fn build_with_zero_interval_fails() {
    let b = EthGetLogs::builder()
        .address("0xabc")
        .from_block(BlockTag::Latest)
        .interval(0)
        .rpc_services(RpcServices::EthMainnet);
    assert_eq!(b.build(), Err(EthGetLogsBuilderError::InvalidField("interval")));
}

#[test]
fn build_with_zero_interval_and_no_providers_names_providers() {
    let b = EthGetLogs::builder().address("0xabc").from_block(BlockTag::Latest).interval(0);
    assert_eq!(b.build(), missing("rpc_services"));
}

#[test]
fn build_with_zero_interval_and_no_address_names_address() {
    let b = EthGetLogs::builder()
        .from_block(BlockTag::Latest)
        .interval(0)
        .rpc_services(RpcServices::EthMainnet);
    assert_eq!(b.build(), missing("address"));
}

#[test]
fn build_with_one_second_interval_succeeds() {
    let s = full_builder().interval(1).build().unwrap();
    assert_eq!(s.interval, 1);
}
