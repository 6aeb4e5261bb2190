//! The orchestrator: sequences validation, optional materialization
//! of inline sources, and the execution loop, emitting lifecycle
//! events along the way. In both variants a run that fails validation
//! short-circuits to a validation-failed summary with zero runs,
//! together with the events collected so far. In `Validate` mode a
//! run stops, ok, after the validation.

use vstd::prelude::*;

use crate::config::{Config, ExecutionMode};
use crate::events::{
    event, execution_created, validation_failed, validation_started, ExecutionEvent,
    ExecutionEventKind, ExecutionId,
};
use crate::execute::{clamp_repeat, ExecutionLoop};
use crate::inline::InlineConfig;
use crate::sink::{CollectingEventSink, EventSink};
use crate::summary::ExecutionSummary;
use crate::validate::{
    spec_validate_config, spec_validate_inline, validate_config, validate_inline_config,
};

verus! {

/// `e` is a message-less event of the given execution and kind.
pub open spec fn event_is(e: ExecutionEvent, id: ExecutionId, kind: ExecutionEventKind) -> bool {
    e.execution_id == id && e.kind == kind && e.message is None
}

/// The three events every orchestration prelude emits, in order:
/// created, validation started, then the verdict.
pub open spec fn prelude_events(
    events: Seq<ExecutionEvent>,
    id: ExecutionId,
    verdict: ExecutionEventKind,
) -> bool {
    &&& events.len() == 3
    &&& event_is(events[0], id, ExecutionEventKind::ExecutionCreated)
    &&& event_is(events[1], id, ExecutionEventKind::ValidationStarted)
    &&& event_is(events[2], id, verdict)
}

/// A validated configuration, ready for its execution loop, together
/// with the sink already holding the prelude events.
pub struct ExecutionPlan {
    pub cfg: Config,
    pub run_loop: ExecutionLoop,
    pub sink: CollectingEventSink,
}

/// Pair a validated configuration with a fresh execution loop.
pub fn plan_execution(cfg: Config, execution_id: ExecutionId, sink: CollectingEventSink) -> (r:
    ExecutionPlan)
    requires
        cfg.fixtures@.len() * clamp_repeat(cfg.repeat) as int <= u64::MAX as int,
    ensures
        r.cfg == cfg,
        r.sink == sink,
        r.run_loop.wf(),
        !r.run_loop.started,
        r.run_loop.execution_id == execution_id,
        r.run_loop.num_fixtures == cfg.fixtures@.len(),
        r.run_loop.repeat == clamp_repeat(cfg.repeat),
        r.run_loop.runs == 0,
        r.run_loop.history@.len() == 0,
{
    let num_fixtures = cfg.fixtures.len();
    let repeat = cfg.repeat;
    ExecutionPlan { cfg, run_loop: ExecutionLoop::new(execution_id, num_fixtures, repeat), sink }
}

/// How a run proceeds once validated.
pub enum RunStart {
    /// The run is over: validation failed, or only validation was
    /// asked for.
    Done { summary: ExecutionSummary, sink: CollectingEventSink },
    /// Validation passed in `Normal` mode: run the execution loop.
    Proceed { plan: ExecutionPlan },
}

/// Begin a file-based run: emit the prelude events, validate the
/// configuration's structure, and either stop with a summary or hand
/// back an execution plan. A validation failure yields a not-ok summary with
/// zero runs; `Validate` mode stops, ok, with zero runs.
pub fn begin_run(cfg: Config, mode: ExecutionMode) -> (r: RunStart)
    requires
        cfg.fixtures@.len() * clamp_repeat(cfg.repeat) as int <= u64::MAX as int,
    ensures
        match r {
            RunStart::Done { summary, sink } => {
                &&& summary.wf()
                &&& summary.runs == 0
                &&& summary.max_duration_ms is None
                &&& summary.max_memory_kb is None
                &&& (spec_validate_config(cfg) is Some ==> !summary.ok && summary.failures@.len()
                    == 1 && prelude_events(
                    sink.events@,
                    summary.execution_id,
                    ExecutionEventKind::ValidationFailed,
                ))
                &&& (spec_validate_config(cfg) is None ==> mode == ExecutionMode::Validate
                    && summary.ok && prelude_events(
                    sink.events@,
                    summary.execution_id,
                    ExecutionEventKind::ValidationSucceeded,
                ))
            },
            RunStart::Proceed { plan } => {
                &&& spec_validate_config(cfg) is None
                &&& mode == ExecutionMode::Normal
                &&& plan.cfg == cfg
                &&& plan.run_loop.wf()
                &&& !plan.run_loop.started
                &&& plan.run_loop.num_fixtures == cfg.fixtures@.len()
                &&& plan.run_loop.repeat == clamp_repeat(cfg.repeat)
                &&& plan.run_loop.runs == 0
                &&& prelude_events(
                    plan.sink.events@,
                    plan.run_loop.execution_id,
                    ExecutionEventKind::ValidationSucceeded,
                )
            },
        },
        (spec_validate_config(cfg) is Some || mode == ExecutionMode::Validate) <==> r is Done,
{
    let mut sink = CollectingEventSink::new();
    let execution_id = ExecutionId::new();

    sink.emit(execution_created(execution_id));
    sink.emit(validation_started(&execution_id));

    match validate_config(&cfg) {
        Err(_) => {
            sink.emit(validation_failed(&execution_id));
            return RunStart::Done { summary: ExecutionSummary::validation_failed(execution_id), sink };
        },
        Ok(()) => {},
    }
    sink.emit(event(execution_id, ExecutionEventKind::ValidationSucceeded));

    if mode == ExecutionMode::Validate {
        return RunStart::Done { summary: ExecutionSummary::validated_only(execution_id), sink };
    }

    RunStart::Proceed { plan: plan_execution(cfg, execution_id, sink) }
}

/// An inline configuration whose validation passed: its sources are
/// still to be materialized under a workspace root before it can be
/// converted to a `Config` and executed.
pub struct MaterializeStep {
    pub inline: InlineConfig,
    pub execution_id: ExecutionId,
    pub sink: CollectingEventSink,
}

/// How an inline run proceeds once validated.
pub enum InlineRunStart {
    /// The run is over: validation failed, or only validation was
    /// asked for.
    Done { summary: ExecutionSummary, sink: CollectingEventSink },
    /// Validation passed in `Normal` mode: materialize the sources,
    /// convert, and run.
    Materialize { step: MaterializeStep },
}

/// Begin an inline run: emit the prelude events and validate. A
/// validation failure short-circuits, as in the file-based variant,
/// to a not-ok summary with zero runs together with the collected
/// events; in `Validate` mode the run stops, ok, with zero runs;
/// otherwise the inline configuration comes back unchanged, to be
/// materialized.
pub fn begin_inline_run(inline: InlineConfig, mode: ExecutionMode) -> (r: InlineRunStart)
    ensures
        match r {
            InlineRunStart::Done { summary, sink } => {
                &&& summary.wf()
                &&& summary.runs == 0
                &&& summary.max_duration_ms is None
                &&& summary.max_memory_kb is None
                &&& (spec_validate_inline(inline) is Some ==> !summary.ok && summary.failures@.len()
                    == 1 && prelude_events(
                    sink.events@,
                    summary.execution_id,
                    ExecutionEventKind::ValidationFailed,
                ))
                &&& (spec_validate_inline(inline) is None ==> mode == ExecutionMode::Validate
                    && summary.ok && prelude_events(
                    sink.events@,
                    summary.execution_id,
                    ExecutionEventKind::ValidationSucceeded,
                ))
            },
            InlineRunStart::Materialize { step } => {
                &&& spec_validate_inline(inline) is None
                &&& mode == ExecutionMode::Normal
                &&& step.inline == inline
                &&& prelude_events(
                    step.sink.events@,
                    step.execution_id,
                    ExecutionEventKind::ValidationSucceeded,
                )
            },
        },
        (spec_validate_inline(inline) is Some || mode == ExecutionMode::Validate) <==> r is Done,
{
    let mut sink = CollectingEventSink::new();
    let execution_id = ExecutionId::new();

    sink.emit(execution_created(execution_id));
    sink.emit(validation_started(&execution_id));

    match validate_inline_config(&inline) {
        Err(_) => {
            sink.emit(validation_failed(&execution_id));
            return InlineRunStart::Done {
                summary: ExecutionSummary::validation_failed(execution_id),
                sink,
            };
        },
        Ok(()) => {},
    }
    sink.emit(event(execution_id, ExecutionEventKind::ValidationSucceeded));

    if mode == ExecutionMode::Validate {
        return InlineRunStart::Done {
            summary: ExecutionSummary::validated_only(execution_id),
            sink,
        };
    }

    InlineRunStart::Materialize { step: MaterializeStep { inline, execution_id, sink } }
}

} // verus!
