use hsemulate::config::{Action, ActionType, Config, ExecutionMode, Runtime, SnapshotConfig};
use hsemulate::error::EngineError;
use hsemulate::events::{ExecutionEventKind, ExecutionId};
use hsemulate::execute::{ExecutionLoop, StepAction};
use hsemulate::invoke::{
    build_invocation_args, complete_invocation, plan_invocation, resolve_runtime, RuntimeKind,
};
use hsemulate::jsontext::json_source_well_formed;
use hsemulate::metrics::InvocationMetrics;
use hsemulate::sink::CollectingEventSink;
use hsemulate::summary::ExecutionSummary;

fn config_for(entry: &str, fixtures: Vec<&str>, repeat: u32) -> Config {
    Config {
        action: Some(Action {
            action_type: ActionType::Js,
            entry: entry.to_string(),
        }),
        fixtures: fixtures.into_iter().map(|f| f.to_string()).collect(),
        env: Vec::new(),
        runtime: Runtime {
            node: "node".to_string(),
            python: "python".to_string(),
        },
        snapshots: SnapshotConfig {
            enabled: false,
            ignore: Vec::new(),
        },
        repeat,
        mode: ExecutionMode::Normal,
    }
}

/// Drive one full execution loop, handing every invocation the given
/// adapter stdout, and return the summary.
fn drive(
    fixtures: Vec<&str>,
    repeat: u32,
    stdout_per_invocation: &str,
) -> (ExecutionSummary, Vec<hsemulate::events::ExecutionEvent>) {
    let id = ExecutionId::new();
    let n = fixtures.len();
    let mut sink = CollectingEventSink::new();
    let mut lp = ExecutionLoop::new(id, n, repeat);
    lp.start(&mut sink);
    loop {
        match lp.next_action() {
            StepAction::ParseFixture { index } => {
                assert!(json_source_well_formed(fixtures[index]));
                lp.fixture_ready();
            }
            StepAction::Invoke { .. } => {
                let (verdict, metrics) =
                    complete_invocation(true, stdout_per_invocation, 5, Some(128)).unwrap();
                lp.record_invocation(metrics, verdict);
            }
            StepAction::Finished => break,
        }
    }
    let result = lp.finish(&mut sink);
    (ExecutionSummary::executed(id, result), sink.into_events())
}

#[test]
fn single_fixture_ok_true() {
    // One fixture, repeat 1, adapter says ok: a passing summary with
    // one run and no failures.
    let (summary, events) = drive(vec!["{\"type\":\"contact.created\"}"], 1, "{\"ok\":true}");
    assert!(summary.ok);
    assert_eq!(summary.runs, 1);
    assert!(summary.failures.is_empty());
    assert_eq!(summary.max_duration_ms, Some(5));
    assert_eq!(summary.max_memory_kb, Some(128));
    let kinds: Vec<_> = events.iter().map(|e| e.kind).collect();
    assert_eq!(
        kinds,
        vec![
            ExecutionEventKind::ExecutionStarted,
            ExecutionEventKind::ExecutionFinished
        ]
    );
}

#[test]
fn single_fixture_ok_false_is_soft_failure() {
    let (summary, _) = drive(vec!["{\"type\":\"contact.created\"}"], 1, "{\"ok\":false}");
    assert!(!summary.ok);
    assert_eq!(summary.runs, 1);
    assert_eq!(summary.failures, vec!["Action returned ok=false".to_string()]);
}

#[test]
fn missing_ok_field_is_soft_failure() {
    let (summary, _) = drive(vec!["{}"], 1, "{\"status\":\"fine\"}");
    assert!(!summary.ok);
    assert_eq!(summary.failures.len(), 1);
}

#[test]
fn runs_is_fixtures_times_repeat() {
    let (summary, _) = drive(vec!["1", "2", "3"], 2, "{\"ok\":true}");
    assert_eq!(summary.runs, 6);
    assert!(summary.ok);
}

#[test]
fn repeat_zero_is_floored_to_one() {
    let (summary, _) = drive(vec!["1", "2"], 0, "{\"ok\":true}");
    assert_eq!(summary.runs, 2);
}

#[test]
fn unsupported_extension_fails_before_any_spawn() {
    // A .rb entry resolves to no runtime: the plan itself is the
    // failure, before any process could be spawned.
    let cfg = config_for("handler.rb", vec!["fx.json"], 1);
    match plan_invocation(&cfg) {
        Err(EngineError::UnsupportedActionType { extension }) => assert_eq!(extension, "rb"),
        other => panic!("expected UnsupportedActionType, got {:?}", other),
    }
}

#[test]
fn second_fixture_malformed_aborts_execution() {
    // The first fixture's invocation completes; reaching the second,
    // malformed fixture aborts the run: no summary, a hard error.
    let fixtures = ["{\"a\":1}", "{broken"];
    let id = ExecutionId::new();
    let mut sink = CollectingEventSink::new();
    let mut lp = ExecutionLoop::new(id, fixtures.len(), 1);
    lp.start(&mut sink);
    let outcome: Result<ExecutionSummary, EngineError> = loop {
        match lp.next_action() {
            StepAction::ParseFixture { index } => {
                if !json_source_well_formed(fixtures[index]) {
                    break Err(EngineError::FixtureNotJson {
                        path: format!("fixture-{}", index),
                    });
                }
                lp.fixture_ready();
            }
            StepAction::Invoke { .. } => {
                let (verdict, metrics) =
                    complete_invocation(true, "{\"ok\":true}", 3, None).unwrap();
                lp.record_invocation(metrics, verdict);
            }
            StepAction::Finished => panic!("execution must abort before completing"),
        }
    };
    match outcome {
        Err(EngineError::FixtureNotJson { path }) => {
            assert_eq!(path, "fixture-1");
            // The first fixture had already run once when the abort hit.
            assert_eq!(lp.runs, 1);
        }
        other => panic!("expected a hard error, got {:?}", other),
    }
}

#[test]
fn unsupported_extension_is_reported_lowercased() {
    let cfg = config_for("handler.RB", vec!["fx.json"], 1);
    match plan_invocation(&cfg) {
        Err(EngineError::UnsupportedActionType { extension }) => assert_eq!(extension, "rb"),
        other => panic!("expected UnsupportedActionType, got {:?}", other),
    }
}

#[test]
fn nonzero_exit_is_hard_failure() {
    assert_eq!(
        complete_invocation(false, "{\"ok\":true}", 1, None),
        Err(EngineError::RuntimeExitError)
    );
}

#[test]
fn unparseable_stdout_is_hard_failure() {
    assert_eq!(
        complete_invocation(true, "not json at all", 1, None),
        Err(EngineError::AdapterOutputError)
    );
    assert_eq!(
        EngineError::AdapterOutputError.message(),
        "Shim did not emit valid JSON"
    );
}

#[test]
fn stdout_is_trimmed_before_parsing() {
    let (verdict, _) = complete_invocation(true, "\n   {\"ok\": true}  \n", 2, None).unwrap();
    assert!(verdict);
}

#[test]
fn wrong_typed_ok_counts_as_failure() {
    let (verdict, _) = complete_invocation(true, "{\"ok\": \"yes\"}", 2, None).unwrap();
    assert!(!verdict);
}

#[test]
fn duration_maximum_is_order_independent() {
    // The same three durations, folded in different orders, yield the
    // same maximum.
    let orders = [[5u128, 9, 3], [3, 5, 9], [9, 3, 5]];
    let mut maxima = Vec::new();
    for durations in orders {
        let id = ExecutionId { value: 1 };
        let mut sink = CollectingEventSink::new();
        let mut lp = ExecutionLoop::new(id, 3, 1);
        lp.start(&mut sink);
        let mut i = 0;
        loop {
            match lp.next_action() {
                StepAction::ParseFixture { .. } => lp.fixture_ready(),
                StepAction::Invoke { .. } => {
                    lp.record_invocation(
                        InvocationMetrics {
                            duration_ms: durations[i],
                            max_rss_kb: None,
                        },
                        true,
                    );
                    i += 1;
                }
                StepAction::Finished => break,
            }
        }
        maxima.push(lp.finish(&mut sink).max_duration_ms);
    }
    assert_eq!(maxima, vec![Some(9), Some(9), Some(9)]);
}

#[test]
fn memory_maximum_absent_iff_no_sample() {
    let id = ExecutionId { value: 2 };
    let mut sink = CollectingEventSink::new();
    let mut lp = ExecutionLoop::new(id, 2, 1);
    lp.start(&mut sink);
    let samples = [None, None];
    let mut i = 0;
    loop {
        match lp.next_action() {
            StepAction::ParseFixture { .. } => lp.fixture_ready(),
            StepAction::Invoke { .. } => {
                lp.record_invocation(
                    InvocationMetrics {
                        duration_ms: 1,
                        max_rss_kb: samples[i],
                    },
                    true,
                );
                i += 1;
            }
            StepAction::Finished => break,
        }
    }
    assert_eq!(lp.finish(&mut sink).max_memory_kb, None);

    let (summary, _) = drive(vec!["1", "2"], 1, "{\"ok\":true}");
    assert_eq!(summary.max_memory_kb, Some(128));
}

#[test]
fn runtime_resolution_by_extension() {
    assert_eq!(resolve_runtime("handler.py"), RuntimeKind::Python);
    assert_eq!(resolve_runtime("handler.PY"), RuntimeKind::Python);
    assert_eq!(resolve_runtime("index.js"), RuntimeKind::Node);
    assert_eq!(resolve_runtime("index.mjs"), RuntimeKind::Node);
    assert_eq!(resolve_runtime("INDEX.CJS"), RuntimeKind::Node);
    assert_eq!(resolve_runtime("handler.rb"), RuntimeKind::Unsupported);
    assert_eq!(resolve_runtime("no_extension"), RuntimeKind::Unsupported);
}

#[test]
fn python_plan_uses_python_runtime_and_adapter() {
    let mut cfg = config_for("handler.py", vec!["fx.json"], 1);
    cfg.action.as_mut().unwrap().action_type = ActionType::Python;
    let plan = plan_invocation(&cfg).unwrap();
    assert_eq!(plan.runtime_binary, "python");
    assert_eq!(plan.adapter_file_name, "hs_python_runner.py");
    assert_eq!(plan.entry, "handler.py");
}

#[test]
fn node_plan_uses_node_runtime_and_adapter() {
    let cfg = config_for("index.js", vec!["fx.json"], 1);
    let plan = plan_invocation(&cfg).unwrap();
    assert_eq!(plan.runtime_binary, "node");
    assert_eq!(plan.adapter_file_name, "hs_node_runner.mjs");
}

#[test]
fn invocation_args_keep_protocol_order() {
    let args = build_invocation_args("/tmp/w/adapter.mjs", "/tmp/w/index.js", "/tmp/w/event.json");
    assert_eq!(
        args,
        vec![
            "/tmp/w/adapter.mjs".to_string(),
            "/tmp/w/index.js".to_string(),
            "/tmp/w/event.json".to_string()
        ]
    );
}
