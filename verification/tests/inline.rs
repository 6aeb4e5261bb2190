use hsemulate::config::{ActionType, ExecutionMode};
use hsemulate::events::ExecutionEventKind;
use hsemulate::inline::{
    default_node, default_python, default_repeat, InlineAction, InlineConfig, InlineFixture,
    InlineLanguage, InlineRuntime, InlineSnapshots,
};
use hsemulate::run::{begin_inline_run, begin_run, InlineRunStart, RunStart};

fn sample_inline() -> InlineConfig {
    InlineConfig {
        version: 1,
        action: InlineAction {
            language: InlineLanguage::Python,
            entry: "handler.py".to_string(),
            source: "def handler(event):\n    return {\"ok\": True}\n".to_string(),
        },
        fixtures: vec![
            InlineFixture {
                name: "first.json".to_string(),
                source: "{\"n\":1}".to_string(),
            },
            InlineFixture {
                name: "second.json".to_string(),
                source: "{\"n\":2}".to_string(),
            },
        ],
        env: vec![("API_BASE".to_string(), "http://localhost".to_string())],
        runtime: InlineRuntime {
            node: default_node(),
            python: default_python(),
        },
        snapshots: InlineSnapshots { enabled: true },
        repeat: default_repeat(),
    }
}

#[test]
fn defaults_are_node_python_one() {
    assert_eq!(default_node(), "node");
    assert_eq!(default_python(), "python");
    assert_eq!(default_repeat(), 1);
}

#[test]
fn materialized_config_round_trip() {
    // Materializing under root R anchors the entry and every fixture
    // under R, in the declared order.
    let inline = sample_inline();
    let cfg = inline.into_config("/tmp/workspace");
    let action = cfg.action.unwrap();
    assert_eq!(action.action_type, ActionType::Python);
    assert_eq!(action.entry, "/tmp/workspace/handler.py");
    assert_eq!(
        cfg.fixtures,
        vec![
            "/tmp/workspace/first.json".to_string(),
            "/tmp/workspace/second.json".to_string()
        ]
    );
    assert_eq!(
        cfg.env,
        vec![("API_BASE".to_string(), "http://localhost".to_string())]
    );
    assert_eq!(cfg.runtime.node, "node");
    assert_eq!(cfg.runtime.python, "python");
    assert!(cfg.snapshots.enabled);
    assert!(cfg.snapshots.ignore.is_empty());
    assert_eq!(cfg.repeat, 1);
    assert_eq!(cfg.mode, ExecutionMode::Normal);
}

#[test]
fn inline_validate_mode_stops_ok_with_zero_runs() {
    match begin_inline_run(sample_inline(), ExecutionMode::Validate) {
        InlineRunStart::Done { summary, sink } => {
            assert!(summary.ok);
            assert_eq!(summary.runs, 0);
            assert!(summary.failures.is_empty());
            let kinds: Vec<_> = sink.into_events().iter().map(|e| e.kind).collect();
            assert_eq!(
                kinds,
                vec![
                    ExecutionEventKind::ExecutionCreated,
                    ExecutionEventKind::ValidationStarted,
                    ExecutionEventKind::ValidationSucceeded
                ]
            );
        }
        InlineRunStart::Materialize { .. } => panic!("validate mode must stop after validation"),
    }
}

#[test]
fn inline_normal_mode_proceeds_to_materialization() {
    match begin_inline_run(sample_inline(), ExecutionMode::Normal) {
        InlineRunStart::Materialize { step } => {
            assert_eq!(step.inline.action.entry, "handler.py");
            assert_eq!(step.inline.fixtures.len(), 2);
        }
        InlineRunStart::Done { .. } => panic!("a valid inline config in normal mode must proceed"),
    }
}

#[test]
fn inline_validation_failure_short_circuits_to_summary() {
    // As in the file-based variant: a failed validation yields a
    // not-ok summary with zero runs and a ValidationFailed event,
    // not an error.
    let mut inline = sample_inline();
    inline.action.entry = "handler.rb".to_string();
    match begin_inline_run(inline, ExecutionMode::Normal) {
        InlineRunStart::Done { summary, sink } => {
            assert!(!summary.ok);
            assert_eq!(summary.runs, 0);
            assert_eq!(summary.failures, vec!["Validation failed".to_string()]);
            let kinds: Vec<_> = sink.into_events().iter().map(|e| e.kind).collect();
            assert_eq!(
                kinds,
                vec![
                    ExecutionEventKind::ExecutionCreated,
                    ExecutionEventKind::ValidationStarted,
                    ExecutionEventKind::ValidationFailed
                ]
            );
        }
        InlineRunStart::Materialize { .. } => panic!("an invalid inline config must not proceed"),
    }
}

#[test]
fn file_run_with_invalid_config_short_circuits() {
    let inline = sample_inline();
    let mut cfg = inline.into_config("/tmp/w");
    cfg.action = None;
    match begin_run(cfg, ExecutionMode::Normal) {
        RunStart::Done { summary, sink } => {
            assert!(!summary.ok);
            assert_eq!(summary.runs, 0);
            assert_eq!(summary.failures, vec!["Validation failed".to_string()]);
            let kinds: Vec<_> = sink.into_events().iter().map(|e| e.kind).collect();
            assert_eq!(
                kinds,
                vec![
                    ExecutionEventKind::ExecutionCreated,
                    ExecutionEventKind::ValidationStarted,
                    ExecutionEventKind::ValidationFailed
                ]
            );
        }
        RunStart::Proceed { .. } => panic!("an invalid config must not proceed"),
    }
}

#[test]
fn file_run_with_valid_config_proceeds() {
    let cfg = sample_inline().into_config("/tmp/w");
    match begin_run(cfg, ExecutionMode::Normal) {
        RunStart::Proceed { plan } => {
            assert_eq!(plan.run_loop.num_fixtures, 2);
            assert_eq!(plan.run_loop.repeat, 1);
            assert_eq!(plan.run_loop.runs, 0);
            assert_eq!(plan.sink.events.len(), 3);
        }
        RunStart::Done { .. } => panic!("a valid config in normal mode must proceed"),
    }
}

#[test]
fn file_run_validate_mode_stops_ok() {
    let cfg = sample_inline().into_config("/tmp/w");
    match begin_run(cfg, ExecutionMode::Validate) {
        RunStart::Done { summary, .. } => {
            assert!(summary.ok);
            assert_eq!(summary.runs, 0);
        }
        RunStart::Proceed { .. } => panic!("validate mode must stop after validation"),
    }
}
