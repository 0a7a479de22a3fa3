//! The decisions of the configuration writer.
//!
//! Writes are debounced: the first write after a quiet spell arms a deadline,
//! later writes only replace the content waiting for it, and when the deadline
//! passes the latest content is committed, unless it is what was committed
//! last. When the sender goes away the waiting content is committed at once.
//! While persistence is disabled nothing is touched at all.

use vstd::prelude::*;

use crate::text::same_text;

verus! {

/// What woke the writer.
pub enum PersistEvent {
    /// New content to save.
    Message(String),
    /// The armed deadline passed.
    Timeout,
    /// Every sender is gone; the writer is shutting down.
    Disconnected,
}

/// What the writer does next.
pub enum PersistAction {
    /// Nothing to write; wait for the next event, arming a new deadline first
    /// when `arm_deadline` is set.
    Wait { arm_deadline: bool },
    /// Write this content to disk, then wait with no deadline.
    Commit(String),
    /// Write this content if there is one, then stop.
    Stop(Option<String>),
}

/// The content waiting for the deadline, whether a deadline is armed, and the
/// last content committed.
pub struct PersistDebouncer {
    pub pending: Option<String>,
    pub deadline_armed: bool,
    pub last_written: String,
}

/// A deadline is armed exactly while content waits for it.
pub open spec fn debouncer_wf(state: PersistDebouncer) -> bool {
    state.deadline_armed == state.pending is Some
}

/// The writer's state as text: what waits, and what was written last.
pub struct DebouncerView {
    pub pending: Option<Seq<char>>,
    pub last_written: Seq<char>,
}

pub enum EventView {
    Message(Seq<char>),
    Timeout,
    Disconnected,
}

pub enum ActionView {
    Wait { arm_deadline: bool },
    Commit(Seq<char>),
    Stop(Option<Seq<char>>),
}

impl View for PersistDebouncer {
    type V = DebouncerView;

    open spec fn view(&self) -> DebouncerView {
        DebouncerView {
            pending: match self.pending {
                Some(content) => Some(content@),
                None => None,
            },
            last_written: self.last_written@,
        }
    }
}

impl View for PersistEvent {
    type V = EventView;

    open spec fn view(&self) -> EventView {
        match self {
            PersistEvent::Message(content) => EventView::Message(content@),
            PersistEvent::Timeout => EventView::Timeout,
            PersistEvent::Disconnected => EventView::Disconnected,
        }
    }
}

impl View for PersistAction {
    type V = ActionView;

    open spec fn view(&self) -> ActionView {
        match self {
            PersistAction::Wait { arm_deadline } => ActionView::Wait { arm_deadline: *arm_deadline },
            PersistAction::Commit(content) => ActionView::Commit(content@),
            PersistAction::Stop(content) => ActionView::Stop(
                match content {
                    Some(c) => Some(c@),
                    None => None,
                },
            ),
        }
    }
}

/// The content a flush writes: what waits, unless it is what was written last.
pub open spec fn flush_content(state: DebouncerView) -> Option<Seq<char>> {
    match state.pending {
        Some(content) => if content != state.last_written { Some(content) } else { None },
        None => None,
    }
}

/// One step of the writer: its next state and what it does.
pub open spec fn persist_step(state: DebouncerView, event: EventView, enabled: bool) -> (DebouncerView, ActionView) {
    if !enabled {
        (state, ActionView::Wait { arm_deadline: false })
    } else {
        match event {
            EventView::Message(content) => (
                DebouncerView { pending: Some(content), ..state },
                ActionView::Wait { arm_deadline: state.pending is None },
            ),
            EventView::Timeout => match flush_content(state) {
                Some(content) => (
                    DebouncerView { pending: None, last_written: content },
                    ActionView::Commit(content),
                ),
                None => (DebouncerView { pending: None, ..state }, ActionView::Wait { arm_deadline: false }),
            },
            EventView::Disconnected => (
                DebouncerView { pending: None, ..state },
                ActionView::Stop(flush_content(state)),
            ),
        }
    }
}

impl PersistDebouncer {
    pub fn new() -> (state: Self)
        ensures
            state@ == (DebouncerView { pending: None, last_written: Seq::empty() }),
            debouncer_wf(state),
    {
        PersistDebouncer { pending: None, deadline_armed: false, last_written: String::new() }
    }

    /// Handles one event; `enabled` says whether persistence is on.
    pub fn handle(&mut self, event: PersistEvent, enabled: bool) -> (action: PersistAction)
        requires
            debouncer_wf(*old(self)),
        ensures
            debouncer_wf(*final(self)),
            (final(self)@, action@) == persist_step(old(self)@, event@, enabled),
    {
        if !enabled {
            return PersistAction::Wait { arm_deadline: false };
        }
        match event {
            PersistEvent::Message(content) => {
                let arm_deadline = !self.deadline_armed;
                self.deadline_armed = true;
                self.pending = Some(content);
                PersistAction::Wait { arm_deadline }
            },
            PersistEvent::Timeout => {
                let pending = self.pending.take();
                self.deadline_armed = false;
                match pending {
                    Some(content) => {
                        if !same_text(content.as_str(), self.last_written.as_str()) {
                            let written = content.clone();
                            self.last_written = content;
                            PersistAction::Commit(written)
                        } else {
                            PersistAction::Wait { arm_deadline: false }
                        }
                    },
                    None => PersistAction::Wait { arm_deadline: false },
                }
            },
            PersistEvent::Disconnected => {
                let pending = self.pending.take();
                self.deadline_armed = false;
                match pending {
                    Some(content) => {
                        if !same_text(content.as_str(), self.last_written.as_str()) {
                            PersistAction::Stop(Some(content))
                        } else {
                            PersistAction::Stop(None)
                        }
                    },
                    None => PersistAction::Stop(None),
                }
            },
        }
    }
}

/// Of several writes before a flush, only the latest reaches the disk, and
/// only if it differs from what was written last; the deadline is armed by the
/// first of them alone.
pub proof fn only_the_latest_write_is_committed(
    state: DebouncerView,
    first: Seq<char>,
    second: Seq<char>,
)
    requires
        state.pending is None,
    ensures
        ({
            let (s1, a1) = persist_step(state, EventView::Message(first), true);
            let (s2, a2) = persist_step(s1, EventView::Message(second), true);
            let (s3, a3) = persist_step(s2, EventView::Timeout, true);
            &&& a1 == (ActionView::Wait { arm_deadline: true })
            &&& a2 == (ActionView::Wait { arm_deadline: false })
            &&& a3 == if second != state.last_written {
                ActionView::Commit(second)
            } else {
                ActionView::Wait { arm_deadline: false }
            }
            &&& s3.pending is None
        }),
{
}

/// Shutting down never loses the latest write: on disconnect the waiting
/// content is handed over for writing unless it is already on disk.
pub proof fn a_disconnect_flushes_what_waits(state: DebouncerView, content: Seq<char>)
    ensures
        ({
            let (s1, _a1) = persist_step(state, EventView::Message(content), true);
            let (_s2, a2) = persist_step(s1, EventView::Disconnected, true);
            a2 == ActionView::Stop(if content != state.last_written { Some(content) } else { None })
        }),
{
}

/// Content already on disk is never written again by a flush.
pub proof fn a_flush_never_rewrites_the_last_content(state: DebouncerView, enabled: bool)
    requires
        state.pending == Some(state.last_written),
    ensures
        persist_step(state, EventView::Timeout, enabled).1 == (ActionView::Wait { arm_deadline: false }),
        persist_step(state, EventView::Disconnected, enabled).1 is Stop ==> persist_step(
            state,
            EventView::Disconnected,
            enabled,
        ).1 == ActionView::Stop(None),
{
}

} // verus!
