//! Event sinks: a narrow capability to accept one lifecycle event at a
//! time, with an in-memory collecting implementation whose ordered
//! contents back API responses. Further sinks (for live streaming) can
//! implement the same trait.

use vstd::prelude::*;

use crate::events::{ExecutionEvent, ExecutionEventKind, ExecutionId};

verus! {

/// `after` is `before` with exactly one message-less event of the
/// given kind and execution appended.
pub open spec fn appends_event(
    before: Seq<ExecutionEvent>,
    after: Seq<ExecutionEvent>,
    id: ExecutionId,
    kind: ExecutionEventKind,
) -> bool {
    &&& after.len() == before.len() + 1
    &&& forall|i: int| 0 <= i < before.len() ==> after[i] == before[i]
    &&& after.last().execution_id == id
    &&& after.last().kind == kind
    &&& after.last().message is None
}

/// A destination for lifecycle events. `events` is the ordered
/// sequence accepted so far; `emit` appends exactly one event to it.
pub trait EventSink: Sized {
    spec fn events(&self) -> Seq<ExecutionEvent>;

    fn emit(&mut self, e: ExecutionEvent)
        ensures
            final(self).events() == old(self).events().push(e),
    ;
}

/// A sink that keeps every event in arrival order.
pub struct CollectingEventSink {
    pub events: Vec<ExecutionEvent>,
}

impl CollectingEventSink {
    /// An empty collector.
    pub fn new() -> (r: CollectingEventSink)
        ensures
            r.events@.len() == 0,
    {
        CollectingEventSink { events: Vec::new() }
    }

    /// Hand the ordered collected events out.
    pub fn into_events(self) -> (r: Vec<ExecutionEvent>)
        ensures
            r@ == self.events@,
    {
        self.events
    }
}

impl EventSink for CollectingEventSink {
    open spec fn events(&self) -> Seq<ExecutionEvent> {
        self.events@
    }

    fn emit(&mut self, e: ExecutionEvent) {
        self.events.push(e);
    }
}

} // verus!
