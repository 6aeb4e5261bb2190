//! The execution loop and metrics aggregator, as a step machine: the
//! loop decides which fixture to parse or invoke next and folds every
//! finished invocation into its running aggregates, while the caller
//! performs the subprocess and filesystem work between steps. Fixtures
//! are processed strictly in declared order, each invoked `repeat`
//! times; a hard failure aborts the caller's loop, a soft failure is
//! recorded and execution continues.

use vstd::prelude::*;

use vstd::string::StringExecFns;

use crate::events::{event, stderr_event, ExecutionEventKind, ExecutionId};
use crate::metrics::{
    failure_count, lemma_history_push, lemma_max_duration_is_max, lemma_max_memory_absent,
    max_duration_of, max_memory_of, InvRecord, InvocationMetrics,
};
use crate::sink::{appends_event, EventSink};

verus! {

/// The aggregated outcome of one full execution.
#[derive(Clone, Debug)]
pub struct ExecutionResult {
    pub ok: bool,
    pub runs: u64,
    pub failures: Vec<String>,
    pub max_duration_ms: Option<u128>,
    pub max_memory_kb: Option<u64>,
    pub snapshots_ok: bool,
}

impl ExecutionResult {
    /// Success is exactly the absence of recorded failures.
    pub open spec fn wf(self) -> bool {
        self.ok == (self.failures@.len() == 0)
    }
}

/// What the execution loop asks its caller to do next.
#[derive(Clone, Copy, Debug, PartialEq, Eq, Structural)]
pub enum StepAction {
    /// Read the fixture at this index and parse it as JSON; report
    /// back with `fixture_ready`, or abort on a hard failure.
    ParseFixture { index: usize },
    /// Run one invocation against the fixture at this index; report
    /// back with `record_invocation`, or abort on a hard failure.
    Invoke { index: usize },
    /// Every fixture has been invoked `repeat` times; call `finish`.
    Finished,
}

/// A repeat count floored to 1.
pub open spec fn clamp_repeat(raw: u32) -> u32 {
    if raw == 0 {
        1
    } else {
        raw
    }
}

/// The execution loop's state: progress through fixtures × repeats,
/// and the running aggregates over the history of completed
/// invocations.
pub struct ExecutionLoop {
    pub execution_id: ExecutionId,
    pub num_fixtures: usize,
    pub repeat: u32,
    pub fixture_idx: usize,
    pub attempt: u32,
    pub loaded: bool,
    pub started: bool,
    pub runs: u64,
    pub failures: Vec<String>,
    pub max_duration_ms: Option<u128>,
    pub max_memory_kb: Option<u64>,
    /// The completed invocations, in the order they ran.
    pub history: Ghost<Seq<InvRecord>>,
}

impl ExecutionLoop {
    /// The loop's invariant: progress counters stay in range, the run
    /// count mirrors the position in the fixtures × repeat grid, and
    /// the aggregates are exactly the folds of the history.
    pub open spec fn wf(self) -> bool {
        &&& self.repeat >= 1
        &&& self.fixture_idx <= self.num_fixtures
        &&& self.num_fixtures as int * self.repeat as int <= u64::MAX as int
        &&& (self.fixture_idx < self.num_fixtures ==> self.attempt < self.repeat)
        &&& (self.fixture_idx == self.num_fixtures ==> self.attempt == 0 && !self.loaded)
        &&& (self.attempt > 0 ==> self.loaded)
        &&& (!self.started ==> self.runs == 0 && self.fixture_idx == 0 && !self.loaded)
        &&& self.runs as int == self.fixture_idx as int * self.repeat as int
            + self.attempt as int
        &&& self.history@.len() == self.runs as int
        &&& self.max_duration_ms == max_duration_of(self.history@)
        &&& self.max_memory_kb == max_memory_of(self.history@)
        &&& self.failures@.len() == failure_count(self.history@)
        &&& forall|i: int|
            0 <= i < self.failures@.len() ==> #[trigger] self.failures@[i]@
                == "Action returned ok=false"@
    }

    /// A fresh loop over `num_fixtures` fixtures, the raw repeat
    /// count floored to 1, with nothing run yet.
    pub fn new(execution_id: ExecutionId, num_fixtures: usize, repeat_raw: u32) -> (r:
        ExecutionLoop)
        requires
            num_fixtures as int * clamp_repeat(repeat_raw) as int <= u64::MAX as int,
        ensures
            r.wf(),
            r.execution_id == execution_id,
            r.num_fixtures == num_fixtures,
            r.repeat == clamp_repeat(repeat_raw),
            !r.started,
            r.runs == 0,
            r.history@.len() == 0,
            r.fixture_idx == 0,
    {
        let repeat: u32 = if repeat_raw == 0 {
            1
        } else {
            repeat_raw
        };
        ExecutionLoop {
            execution_id,
            num_fixtures,
            repeat,
            fixture_idx: 0,
            attempt: 0,
            loaded: false,
            started: false,
            runs: 0,
            failures: Vec::new(),
            max_duration_ms: None,
            max_memory_kb: None,
            history: Ghost(Seq::empty()),
        }
    }

    /// Announce the execution: emits `ExecutionStarted` and unlocks
    /// the loop. Everything else is unchanged.
    pub fn start<S: EventSink>(&mut self, sink: &mut S)
        requires
            old(self).wf(),
            !old(self).started,
        ensures
            final(self).wf(),
            final(self).started,
            final(self).execution_id == old(self).execution_id,
            final(self).num_fixtures == old(self).num_fixtures,
            final(self).repeat == old(self).repeat,
            final(self).fixture_idx == old(self).fixture_idx,
            final(self).loaded == old(self).loaded,
            final(self).runs == old(self).runs,
            final(self).failures == old(self).failures,
            final(self).max_duration_ms == old(self).max_duration_ms,
            final(self).max_memory_kb == old(self).max_memory_kb,
            final(self).history == old(self).history,
            appends_event(
                old(sink).events(),
                final(sink).events(),
                old(self).execution_id,
                ExecutionEventKind::ExecutionStarted,
            ),
    {
        sink.emit(event(self.execution_id, ExecutionEventKind::ExecutionStarted));
        self.started = true;
    }

    /// What the caller must do next.
    pub fn next_action(&self) -> (a: StepAction)
        requires
            self.wf(),
        ensures
            self.fixture_idx == self.num_fixtures ==> a == StepAction::Finished,
            self.fixture_idx < self.num_fixtures && !self.loaded ==> a == (StepAction::ParseFixture {
                index: self.fixture_idx,
            }),
            self.fixture_idx < self.num_fixtures && self.loaded ==> a == (StepAction::Invoke {
                index: self.fixture_idx,
            }),
    {
        if self.fixture_idx == self.num_fixtures {
            StepAction::Finished
        } else if !self.loaded {
            StepAction::ParseFixture { index: self.fixture_idx }
        } else {
            StepAction::Invoke { index: self.fixture_idx }
        }
    }

    /// The current fixture was read and parsed; invocations of it may
    /// begin.
    pub fn fixture_ready(&mut self)
        requires
            old(self).wf(),
            old(self).started,
            old(self).fixture_idx < old(self).num_fixtures,
            !old(self).loaded,
        ensures
            final(self).wf(),
            *final(self) == (ExecutionLoop { loaded: true, ..*old(self) }),
    {
        self.loaded = true;
    }

    /// Record one line the action wrote to standard error as an
    /// immediate `Stderr` event.
    pub fn note_stderr<S: EventSink>(&self, line: String, sink: &mut S)
        ensures
            final(sink).events().len() == old(sink).events().len() + 1,
            forall|i: int|
                0 <= i < old(sink).events().len() ==> final(sink).events()[i] == old(
                    sink,
                ).events()[i],
            final(sink).events().last().execution_id == self.execution_id,
            final(sink).events().last().kind == ExecutionEventKind::Stderr,
            final(sink).events().last().message == Some(line),
    {
        sink.emit(stderr_event(self.execution_id, line));
    }

    /// Fold one completed invocation into the aggregates and advance
    /// through the fixtures × repeat grid: the run count grows by one,
    /// the maxima fold in this invocation's measurements, and a soft
    /// failure appends the fixed failure message.
    pub fn record_invocation(&mut self, metrics: InvocationMetrics, verdict: bool)
        requires
            old(self).wf(),
            old(self).started,
            old(self).fixture_idx < old(self).num_fixtures,
            old(self).loaded,
        ensures
            final(self).wf(),
            final(self).started,
            final(self).execution_id == old(self).execution_id,
            final(self).num_fixtures == old(self).num_fixtures,
            final(self).repeat == old(self).repeat,
            final(self).history@ == old(self).history@.push(
                InvRecord {
                    duration_ms: metrics.duration_ms,
                    rss_kb: metrics.max_rss_kb,
                    ok: verdict,
                },
            ),
            final(self).runs == old(self).runs + 1,
            verdict ==> final(self).failures == old(self).failures,
            !verdict ==> final(self).failures@.len() == old(self).failures@.len() + 1,
            old(self).attempt + 1 < old(self).repeat ==> final(self).fixture_idx == old(
                self,
            ).fixture_idx && final(self).attempt == old(self).attempt + 1 && final(self).loaded,
            old(self).attempt + 1 == old(self).repeat ==> final(self).fixture_idx == old(
                self,
            ).fixture_idx + 1 && final(self).attempt == 0 && !final(self).loaded,
    {
        let ghost rec = InvRecord {
            duration_ms: metrics.duration_ms,
            rss_kb: metrics.max_rss_kb,
            ok: verdict,
        };
        let ghost fi = old(self).fixture_idx as int;
        let ghost rr = old(self).repeat as int;
        let ghost nf = old(self).num_fixtures as int;
        proof {
            lemma_history_push(self.history@, rec);
            assert(fi * rr + rr <= nf * rr) by (nonlinear_arith)
                requires
                    fi < nf,
                    rr >= 1,
            ;
        }
        self.runs = self.runs + 1;
        self.max_duration_ms = match self.max_duration_ms {
            None => Some(metrics.duration_ms),
            Some(m) => Some(
                if metrics.duration_ms > m {
                    metrics.duration_ms
                } else {
                    m
                },
            ),
        };
        self.max_memory_kb = match metrics.max_rss_kb {
            None => self.max_memory_kb,
            Some(k) => match self.max_memory_kb {
                None => Some(k),
                Some(m) => Some(
                    if k > m {
                        k
                    } else {
                        m
                    },
                ),
            },
        };
        if !verdict {
            self.failures.push(String::from_str("Action returned ok=false"));
        }
        proof {
            self.history@ = self.history@.push(rec);
        }
        if self.attempt + 1 == self.repeat {
            self.fixture_idx = self.fixture_idx + 1;
            self.attempt = 0;
            self.loaded = false;
            proof {
                assert((fi + 1) * rr == fi * rr + rr) by (nonlinear_arith);
            }
        } else {
            self.attempt = self.attempt + 1;
        }
    }

    /// Whether every fixture has been invoked `repeat` times.
    pub fn is_finished(&self) -> (r: bool)
        requires
            self.wf(),
        ensures
            r == (self.fixture_idx == self.num_fixtures),
    {
        self.fixture_idx == self.num_fixtures
    }

    /// A completed loop has run every fixture exactly `repeat` times:
    /// its run count is fixtures × repeat, whatever order the steps
    /// were driven in.
    pub proof fn lemma_complete_run_count(self)
        requires
            self.wf(),
            self.fixture_idx == self.num_fixtures,
        ensures
            self.runs == self.num_fixtures as int * self.repeat as int,
    {
    }

    /// Aborting while a fixture is still to be parsed preserves
    /// exactly the completed invocations of the fixtures before it:
    /// the run count is that prefix times `repeat`, and nothing of
    /// the failing fixture or of any later one has run. No summary
    /// can come from such a state: only `finish`, which requires a
    /// completed loop, builds a result or emits `ExecutionFinished`.
    pub proof fn lemma_abort_preserves_prefix(self)
        requires
            self.wf(),
            self.fixture_idx < self.num_fixtures,
            !self.loaded,
        ensures
            self.runs == self.fixture_idx as int * self.repeat as int,
            self.history@.len() == self.fixture_idx as int * self.repeat as int,
    {
    }

    /// Close the execution: emits `ExecutionFinished` and returns the
    /// aggregated result. The run count is exactly fixtures × repeat;
    /// success is exactly the absence of failures; the maxima are the
    /// folds of the full history, the memory maximum absent exactly
    /// when no invocation produced a sample.
    pub fn finish<S: EventSink>(self, sink: &mut S) -> (r: ExecutionResult)
        requires
            self.wf(),
            self.started,
            self.fixture_idx == self.num_fixtures,
        ensures
            appends_event(
                old(sink).events(),
                final(sink).events(),
                self.execution_id,
                ExecutionEventKind::ExecutionFinished,
            ),
            r.wf(),
            r.ok == (failure_count(self.history@) == 0),
            r.runs == self.num_fixtures as int * self.repeat as int,
            r.failures == self.failures,
            r.max_duration_ms == max_duration_of(self.history@),
            r.max_memory_kb == max_memory_of(self.history@),
            (r.max_memory_kb is None) <==> (forall|i: int|
                0 <= i < self.history@.len() ==> #[trigger] self.history@[i].rss_kb is None),
            (r.max_duration_ms is None) <==> self.history@.len() == 0,
            r.snapshots_ok,
    {
        proof {
            lemma_max_memory_absent(self.history@);
            lemma_max_duration_is_max(self.history@);
        }
        sink.emit(event(self.execution_id, ExecutionEventKind::ExecutionFinished));
        let ok = self.failures.len() == 0;
        ExecutionResult {
            ok,
            runs: self.runs,
            failures: self.failures,
            max_duration_ms: self.max_duration_ms,
            max_memory_kb: self.max_memory_kb,
            snapshots_ok: true,
        }
    }
}

} // verus!
