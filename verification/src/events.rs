//! Lifecycle event model: every execution is identified by one
//! `ExecutionId` and reports its progress as an ordered stream of
//! `ExecutionEvent` values.

use vstd::prelude::*;

verus! {

/// Opaque identifier of one execution; generated once per top-level
/// call and attached to every event that execution emits.
#[derive(Clone, Copy, Debug, PartialEq, Eq, Structural)]
pub struct ExecutionId {
    pub value: u64,
}

/// Relies on std::time::SystemTime::now to read the wall clock; the
/// result is converted to whole milliseconds since the UNIX epoch.
/// Nothing is promised of the value: the clock is environmental.
#[verifier::external_body]
pub(crate) fn now_millis() -> u64 {
    match std::time::SystemTime::now().duration_since(std::time::UNIX_EPOCH) {
        Ok(d) => d.as_millis() as u64,
        Err(_) => 0,
    }
}

impl ExecutionId {
    /// A fresh identifier for one execution. Uniqueness rests on the
    /// clock and is not stated here.
    pub fn new() -> ExecutionId {
        ExecutionId { value: now_millis() }
    }
}

/// The kinds of lifecycle events, forming the execution state machine.
#[derive(Clone, Copy, Debug, PartialEq, Eq, Structural)]
pub enum ExecutionEventKind {
    ExecutionCreated,
    ValidationFailed,
    ValidationSucceeded,
    ExecutionStarted,
    ExecutionFinished,
    ValidationStarted,
    Stdout,
    Stderr,
}

/// One lifecycle event: which execution, what happened, when, and an
/// optional payload line.
#[derive(Clone, Debug)]
pub struct ExecutionEvent {
    pub execution_id: ExecutionId,
    pub kind: ExecutionEventKind,
    /// Milliseconds since the UNIX epoch at emission time.
    pub timestamp: u64,
    pub message: Option<String>,
}

/// A bare event of the given kind, with no message.
pub fn event(id: ExecutionId, kind: ExecutionEventKind) -> (r: ExecutionEvent)
    ensures
        r.execution_id == id,
        r.kind == kind,
        r.message is None,
{
    ExecutionEvent { execution_id: id, kind, timestamp: now_millis(), message: None }
}

/// The event announcing that an execution exists.
pub fn execution_created(execution_id: ExecutionId) -> (r: ExecutionEvent)
    ensures
        r.execution_id == execution_id,
        r.kind == ExecutionEventKind::ExecutionCreated,
        r.message is None,
{
    event(execution_id, ExecutionEventKind::ExecutionCreated)
}

/// An event carrying one line the action wrote to standard output.
pub fn stdout_event(execution_id: ExecutionId, message: String) -> (r: ExecutionEvent)
    ensures
        r.execution_id == execution_id,
        r.kind == ExecutionEventKind::Stdout,
        r.message == Some(message),
{
    ExecutionEvent {
        execution_id,
        kind: ExecutionEventKind::Stdout,
        timestamp: now_millis(),
        message: Some(message),
    }
}

/// An event carrying one line the action wrote to standard error.
pub fn stderr_event(execution_id: ExecutionId, message: String) -> (r: ExecutionEvent)
    ensures
        r.execution_id == execution_id,
        r.kind == ExecutionEventKind::Stderr,
        r.message == Some(message),
{
    ExecutionEvent {
        execution_id,
        kind: ExecutionEventKind::Stderr,
        timestamp: now_millis(),
        message: Some(message),
    }
}

/// The event announcing that validation has begun.
pub fn validation_started(id: &ExecutionId) -> (r: ExecutionEvent)
    ensures
        r.execution_id == *id,
        r.kind == ExecutionEventKind::ValidationStarted,
        r.message is None,
{
    event(*id, ExecutionEventKind::ValidationStarted)
}

/// The event announcing that validation rejected the configuration.
pub fn validation_failed(id: &ExecutionId) -> (r: ExecutionEvent)
    ensures
        r.execution_id == *id,
        r.kind == ExecutionEventKind::ValidationFailed,
        r.message is None,
{
    event(*id, ExecutionEventKind::ValidationFailed)
}

} // verus!
