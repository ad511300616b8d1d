//! The life of one input source, from opening it to its last batch.
//!
//! The caller does the reading and writing and reports what happened; the
//! state kept here says whether the source is still being read and how it
//! ended.

use vstd::prelude::*;

verus! {

/// Where a source stands.
#[derive(Copy, Clone, Debug, PartialEq, Eq, Structural)]
pub enum SourceState {
    /// The source is being opened; no batch was pulled yet.
    Opened,
    /// Batches are being pulled and fanned out.
    Streaming,
    /// The source was read to its end.
    Completed,
    /// The source could not be opened.
    Failed,
}

/// What the caller reports of a source.
#[derive(Copy, Clone, Debug, PartialEq, Eq, Structural)]
pub enum SourceEvent {
    /// The source could not be opened.
    OpenFailed,
    /// A batch was pulled and every record of it was dealt with.
    BatchDone,
    /// One record failed: its payload could not be encoded, or its image
    /// could not be rendered or written.
    RecordFailed,
    /// The source has no more rows.
    Exhausted,
}

impl SourceState {
    /// Nothing more happens to a source in this state.
    pub open spec fn is_terminal(self) -> bool {
        self is Completed || self is Failed
    }

    /// The state after an event. Only a source that is being opened can
    /// fail, and only by not opening; the failure of a record changes
    /// nothing; a terminal state is kept.
    pub open spec fn after(self, event: SourceEvent) -> SourceState {
        match (self, event) {
            (SourceState::Opened, SourceEvent::OpenFailed) => SourceState::Failed,
            (SourceState::Opened, SourceEvent::BatchDone) => SourceState::Streaming,
            (SourceState::Opened, SourceEvent::Exhausted) => SourceState::Completed,
            (SourceState::Streaming, SourceEvent::Exhausted) => SourceState::Completed,
            (state, _) => state,
        }
    }

    /// The state after a sequence of events, taken in order.
    pub open spec fn after_all(self, events: Seq<SourceEvent>) -> SourceState
        decreases events.len(),
    {
        if events.len() == 0 {
            self
        } else {
            self.after_all(events.drop_last()).after(events.last())
        }
    }

    /// Takes note of an event.
    pub fn on(self, event: SourceEvent) -> (next: SourceState)
        ensures
            next == self.after(event),
    {
        match (self, event) {
            (SourceState::Opened, SourceEvent::OpenFailed) => SourceState::Failed,
            (SourceState::Opened, SourceEvent::BatchDone) => SourceState::Streaming,
            (SourceState::Opened, SourceEvent::Exhausted) => SourceState::Completed,
            (SourceState::Streaming, SourceEvent::Exhausted) => SourceState::Completed,
            (state, _) => state,
        }
    }

    /// Whether the source is done with, one way or the other.
    pub fn is_done(&self) -> (done: bool)
        ensures
            done == self.is_terminal(),
    {
        match self {
            SourceState::Completed | SourceState::Failed => true,
            _ => false,
        }
    }
}

/// A terminal state is kept whatever is reported afterwards.
pub proof fn lemma_terminal_is_kept(state: SourceState, events: Seq<SourceEvent>)
    requires
        state.is_terminal(),
    ensures
        state.after_all(events) == state,
    decreases events.len(),
{
    if events.len() > 0 {
        lemma_terminal_is_kept(state, events.drop_last());
    }
}

/// The failures of records never fail a source: whatever is reported, a
/// source ends up failed only if it was failed before, or was still being
/// opened when an open failure was reported. It ends up completed only if
/// it was completed before, or its exhaustion was reported.
pub proof fn lemma_only_opening_fails(state: SourceState, events: Seq<SourceEvent>)
    ensures
        state.after_all(events) is Failed ==> state is Failed || (state is Opened
            && events.contains(SourceEvent::OpenFailed)),
        state.after_all(events) is Completed ==> state is Completed || events.contains(
            SourceEvent::Exhausted,
        ),
        state.after_all(events) is Opened ==> state is Opened,
        state is Streaming ==> !(state.after_all(events) is Failed),
    decreases events.len(),
{
    if events.len() > 0 {
        let before = events.drop_last();
        lemma_only_opening_fails(state, before);
        if before.contains(SourceEvent::OpenFailed) {
            let i = choose|i: int| 0 <= i < before.len() && before[i] == SourceEvent::OpenFailed;
            assert(events[i] == SourceEvent::OpenFailed);
        }
        if before.contains(SourceEvent::Exhausted) {
            let i = choose|i: int| 0 <= i < before.len() && before[i] == SourceEvent::Exhausted;
            assert(events[i] == SourceEvent::Exhausted);
        }
        if state.after_all(events) is Failed && !(state.after_all(before) is Failed) {
            assert(events[events.len() - 1] == SourceEvent::OpenFailed);
        }
        if state.after_all(events) is Completed && !(state.after_all(before) is Completed) {
            assert(events[events.len() - 1] == SourceEvent::Exhausted);
        }
    }
}

} // verus!
