use llm_gateway::errors::{AdapterError, GatewayError, StatusCode};
use llm_gateway::gateway::{build_record, MyGateway, Prompt};
use llm_gateway::registry::{AdapterDescriptor, AdapterRegistry, Capability};
use llm_gateway::scatter::{aggregate, ScatterOutcome, ScatterResult, COST_MICROS_PER_CALL};

fn descriptor(name: &str, capability: Capability) -> AdapterDescriptor {
    AdapterDescriptor { name: name.to_string(), capability }
}

fn slot(name: &str, outcome: ScatterOutcome) -> ScatterResult {
    ScatterResult { adapter_name: name.to_string(), outcome, elapsed_ms: 10 }
}

fn prompt(text: &str) -> Prompt {
    Prompt { text: text.to_string(), model_hint: "default".to_string(), needs_search: false }
}

fn chat_gateway(names: &[&str]) -> MyGateway {
    let mut registry = AdapterRegistry::new();
    for n in names {
        assert!(registry.register(descriptor(n, Capability::Chat)));
    }
    MyGateway::new(registry)
}

#[test]
fn winner_is_first_registered_success() {
    let results = vec![
        slot("alpha", ScatterOutcome::TimedOut),
        slot("beta", ScatterOutcome::Success("beta says hi".to_string())),
        slot("gamma", ScatterOutcome::Success("gamma says hi".to_string())),
    ];
    let agg = aggregate(&results);
    assert_eq!(agg.winning_adapter.as_deref(), Some("beta"));
    assert_eq!(agg.consolidated_text, "beta says hi");
    assert_eq!(agg.count_succeeded, 2);
    assert_eq!(agg.total_cost_estimate_micros, 2 * COST_MICROS_PER_CALL);
}

#[test]
fn winner_ignores_completion_order() {
    // the table is in registration order whatever finished first, so the
    // winner is pinned by position, not speed
    let results = vec![
        slot("first", ScatterOutcome::Success("slowest but first".to_string())),
        slot("second", ScatterOutcome::Success("fastest".to_string())),
    ];
    let agg = aggregate(&results);
    assert_eq!(agg.winning_adapter.as_deref(), Some("first"));
    assert_eq!(agg.consolidated_text, "slowest but first");
}

#[test]
fn all_failures_aggregate_to_sentinel() {
    let results = vec![
        slot("alpha", ScatterOutcome::TimedOut),
        slot("beta", ScatterOutcome::Failed(AdapterError::Unavailable)),
        slot("gamma", ScatterOutcome::Failed(AdapterError::InvalidResponse)),
    ];
    let agg = aggregate(&results);
    assert_eq!(agg.count_succeeded, 0);
    assert!(agg.winning_adapter.is_none());
    assert_eq!(agg.consolidated_text, "no backend responded");
    assert_eq!(agg.total_cost_estimate_micros, 0);
}

#[test]
fn empty_table_aggregates_to_sentinel() {
    let agg = aggregate(&Vec::new());
    assert_eq!(agg.count_succeeded, 0);
    assert!(agg.winning_adapter.is_none());
    assert_eq!(agg.consolidated_text, "no backend responded");
}

#[test]
fn execute_prompt_appends_record_and_counts_once() {
    let mut gw = chat_gateway(&["alpha", "beta"]);
    let p = prompt("what is up");
    let results = vec![
        slot("alpha", ScatterOutcome::Failed(AdapterError::Unauthenticated)),
        slot("beta", ScatterOutcome::Success("all good".to_string())),
    ];
    let agg = gw.execute_prompt(&p, &results, 42, 7, true).expect("request should succeed");
    assert_eq!(agg.winning_adapter.as_deref(), Some("beta"));
    assert_eq!(gw.state.total_requests, 1);
    assert_eq!(gw.state.log.len(), 1);
    let rec = &gw.state.log.records[0];
    assert_eq!(rec.prompt_text, "what is up");
    assert_eq!(rec.winner, "beta");
    assert_eq!(rec.response_text, "all good");
    assert_eq!(rec.duration_ms, 42);
    assert_eq!(rec.created_at, 7);
}

#[test]
fn all_failures_still_log_and_count() {
    let mut gw = chat_gateway(&["alpha"]);
    let p = prompt("anyone there");
    let results = vec![slot("alpha", ScatterOutcome::TimedOut)];
    let agg = gw.execute_prompt(&p, &results, 5, 1, true).expect("backend faults stay contained");
    assert_eq!(agg.count_succeeded, 0);
    assert_eq!(gw.state.total_requests, 1);
    assert_eq!(gw.state.log.len(), 1);
    assert_eq!(gw.state.log.records[0].winner, "none");
    assert_eq!(gw.state.log.records[0].response_text, "no backend responded");
}

#[test]
fn hundred_calls_count_exactly_hundred() {
    let mut gw = chat_gateway(&["alpha"]);
    let p = prompt("again");
    for _ in 0..100 {
        let results = vec![slot("alpha", ScatterOutcome::Success("ok".to_string()))];
        gw.execute_prompt(&p, &results, 1, 1, true).expect("request should succeed");
    }
    assert_eq!(gw.state.total_requests, 100);
    assert_eq!(gw.state.log.len(), 100);
}

#[test]
fn zero_adapters_fail_before_any_work() {
    let mut gw = MyGateway::new(AdapterRegistry::new());
    let p = prompt("hello");
    assert_eq!(gw.plan_invocations(&p).unwrap_err(), GatewayError::PreconditionFault);
    let err = gw.execute_prompt(&p, &Vec::new(), 1, 1, true).unwrap_err();
    assert_eq!(err, GatewayError::PreconditionFault);
    assert_eq!(gw.state.total_requests, 0);
    assert_eq!(gw.state.log.len(), 0);
}

#[test]
fn persistence_failure_surfaces_internal_and_leaves_reads_working() {
    let mut gw = chat_gateway(&["alpha"]);
    let p = prompt("store this");
    let results = vec![slot("alpha", ScatterOutcome::Success("fine".to_string()))];
    let err = gw.execute_prompt(&p, &results, 1, 1, false).unwrap_err();
    assert_eq!(err, GatewayError::AggregationFault);
    assert_eq!(err.status_code(), StatusCode::Internal);
    // nothing was committed and the read side still answers
    assert_eq!(gw.state.total_requests, 0);
    assert_eq!(gw.state.log.len(), 0);
    let stats = gw.stats();
    assert_eq!(stats.total_requests_processed, 0);
    assert_eq!(stats.status, "Running");
    assert!(gw.state.log.leaderboard().is_empty());
}

#[test]
fn plan_selects_chat_always_and_search_on_request() {
    let mut registry = AdapterRegistry::new();
    assert!(registry.register(descriptor("alpha", Capability::Chat)));
    assert!(registry.register(descriptor("seeker", Capability::Search)));
    assert!(registry.register(descriptor("beta", Capability::Chat)));
    let gw = MyGateway::new(registry);

    let plain = gw.plan_invocations(&prompt("plain")).expect("chat adapters exist");
    let names: Vec<&str> = plain.iter().map(|d| d.name.as_str()).collect();
    assert_eq!(names, vec!["alpha", "beta"]);

    let mut enriched = prompt("with search");
    enriched.needs_search = true;
    let both = gw.plan_invocations(&enriched).expect("chat adapters exist");
    let names: Vec<&str> = both.iter().map(|d| d.name.as_str()).collect();
    assert_eq!(names, vec!["alpha", "seeker", "beta"]);
}

#[test]
fn build_record_uses_winner_or_sentinel_label() {
    let p = prompt("q");
    let results = vec![slot("alpha", ScatterOutcome::Success("a".to_string()))];
    let agg = aggregate(&results);
    let rec = build_record(&p, &agg, 3, 4);
    assert_eq!(rec.winner, "alpha");
    assert_eq!(rec.response_text, "a");

    let none = aggregate(&vec![slot("alpha", ScatterOutcome::TimedOut)]);
    let rec = build_record(&p, &none, 3, 4);
    assert_eq!(rec.winner, "none");
}

#[test]
fn gateway_error_status_codes() {
    assert_eq!(GatewayError::PreconditionFault.status_code(), StatusCode::FailedPrecondition);
    assert_eq!(GatewayError::AggregationFault.status_code(), StatusCode::Internal);
}

#[test]
fn adapter_error_status_codes() {
    assert_eq!(AdapterError::Unavailable.status_code(), StatusCode::Unavailable);
    assert_eq!(AdapterError::Unauthenticated.status_code(), StatusCode::Internal);
    assert_eq!(AdapterError::InvalidResponse.status_code(), StatusCode::Unknown);
}

#[test]
fn registry_refuses_duplicate_names() {
    let mut registry = AdapterRegistry::new();
    assert!(registry.register(descriptor("alpha", Capability::Chat)));
    assert!(!registry.register(descriptor("alpha", Capability::Search)));
    assert_eq!(registry.len(), 1);
    assert!(registry.contains_name(&"alpha".to_string()));
    assert!(!registry.contains_name(&"beta".to_string()));
}

#[test]
fn registry_filters_by_capability() {
    let mut registry = AdapterRegistry::new();
    assert!(registry.register(descriptor("alpha", Capability::Chat)));
    assert!(registry.register(descriptor("seeker", Capability::Search)));
    assert!(registry.register(descriptor("beta", Capability::Chat)));
    assert_eq!(registry.all().len(), 3);
    let chat = registry.by_capability(Capability::Chat);
    let names: Vec<&str> = chat.iter().map(|d| d.name.as_str()).collect();
    assert_eq!(names, vec!["alpha", "beta"]);
    let search = registry.by_capability(Capability::Search);
    assert_eq!(search.len(), 1);
    assert_eq!(search[0].name, "seeker");
}
