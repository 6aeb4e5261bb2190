//! The final summary of one execution: built once by the
//! orchestrator, immutable afterwards. Success is always exactly the
//! absence of failures.

use vstd::prelude::*;

use vstd::string::StringExecFns;

use crate::events::ExecutionId;
use crate::execute::ExecutionResult;

verus! {

/// The pass/fail summary an execution returns to its caller.
#[derive(Clone, Debug)]
pub struct ExecutionSummary {
    pub execution_id: ExecutionId,
    pub ok: bool,
    pub runs: u64,
    pub failures: Vec<String>,
    pub max_duration_ms: Option<u128>,
    pub max_memory_kb: Option<u64>,
    pub snapshots_ok: bool,
}

impl ExecutionSummary {
    /// Success is exactly the absence of failures.
    pub open spec fn wf(self) -> bool {
        self.ok == (self.failures@.len() == 0)
    }

    /// The summary of an execution whose configuration failed
    /// validation: zero runs, not ok, one failure naming the cause.
    pub fn validation_failed(execution_id: ExecutionId) -> (r: ExecutionSummary)
        ensures
            r.wf(),
            r.execution_id == execution_id,
            !r.ok,
            r.runs == 0,
            r.failures@.len() == 1,
            r.failures@[0]@ == "Validation failed"@,
            r.max_duration_ms is None,
            r.max_memory_kb is None,
            r.snapshots_ok,
    {
        let mut failures: Vec<String> = Vec::new();
        failures.push(String::from_str("Validation failed"));
        ExecutionSummary {
            execution_id,
            ok: false,
            runs: 0,
            failures,
            max_duration_ms: None,
            max_memory_kb: None,
            snapshots_ok: true,
        }
    }

    /// The summary of a run that stopped, as asked, after successful
    /// validation: zero runs, ok.
    pub fn validated_only(execution_id: ExecutionId) -> (r: ExecutionSummary)
        ensures
            r.wf(),
            r.execution_id == execution_id,
            r.ok,
            r.runs == 0,
            r.failures@.len() == 0,
            r.max_duration_ms is None,
            r.max_memory_kb is None,
            r.snapshots_ok,
    {
        ExecutionSummary {
            execution_id,
            ok: true,
            runs: 0,
            failures: Vec::new(),
            max_duration_ms: None,
            max_memory_kb: None,
            snapshots_ok: true,
        }
    }

    /// The summary of a completed execution: the result's fields,
    /// unchanged.
    pub fn executed(execution_id: ExecutionId, result: ExecutionResult) -> (r: ExecutionSummary)
        requires
            result.wf(),
        ensures
            r.wf(),
            r.execution_id == execution_id,
            r.ok == result.ok,
            r.runs == result.runs,
            r.failures == result.failures,
            r.max_duration_ms == result.max_duration_ms,
            r.max_memory_kb == result.max_memory_kb,
            r.snapshots_ok == result.snapshots_ok,
    {
        ExecutionSummary {
            execution_id,
            ok: result.ok,
            runs: result.runs,
            failures: result.failures,
            max_duration_ms: result.max_duration_ms,
            max_memory_kb: result.max_memory_kb,
            snapshots_ok: result.snapshots_ok,
        }
    }
}

} // verus!
