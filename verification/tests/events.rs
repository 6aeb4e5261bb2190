use hsemulate::events::{
    event, execution_created, stderr_event, stdout_event, validation_failed, validation_started,
    ExecutionEventKind, ExecutionId,
};
use hsemulate::sink::{CollectingEventSink, EventSink};

#[test]
fn execution_created_has_kind_and_no_message() {
    let id = ExecutionId { value: 42 };
    let e = execution_created(id);
    assert_eq!(e.execution_id, id);
    assert!(matches!(e.kind, ExecutionEventKind::ExecutionCreated));
    assert!(e.message.is_none());
}

#[test]
fn stdout_and_stderr_events_carry_their_line() {
    let id = ExecutionId { value: 7 };
    let out = stdout_event(id, "a line".to_string());
    assert!(matches!(out.kind, ExecutionEventKind::Stdout));
    assert_eq!(out.message.as_deref(), Some("a line"));
    let err = stderr_event(id, "oops".to_string());
    assert!(matches!(err.kind, ExecutionEventKind::Stderr));
    assert_eq!(err.message.as_deref(), Some("oops"));
    assert_eq!(err.execution_id, id);
}

#[test]
fn validation_events_name_their_phase() {
    let id = ExecutionId { value: 3 };
    assert!(matches!(
        validation_started(&id).kind,
        ExecutionEventKind::ValidationStarted
    ));
    assert!(matches!(
        validation_failed(&id).kind,
        ExecutionEventKind::ValidationFailed
    ));
    assert!(matches!(
        event(id, ExecutionEventKind::ExecutionFinished).kind,
        ExecutionEventKind::ExecutionFinished
    ));
}

#[test]
fn collecting_sink_keeps_arrival_order() {
    let id = ExecutionId { value: 9 };
    let mut sink = CollectingEventSink::new();
    sink.emit(execution_created(id));
    sink.emit(stderr_event(id, "first".to_string()));
    sink.emit(stderr_event(id, "second".to_string()));
    let events = sink.into_events();
    assert_eq!(events.len(), 3);
    assert!(matches!(events[0].kind, ExecutionEventKind::ExecutionCreated));
    assert_eq!(events[1].message.as_deref(), Some("first"));
    assert_eq!(events[2].message.as_deref(), Some("second"));
}
