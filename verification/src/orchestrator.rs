//! The reconciliation orchestrator: the state machine that consumes
//! desired-state events and decides what each one starts, supersedes, or
//! tears down.
//!
//! The event stream, the spawning of loops and the cluster deletions are
//! the caller's; the orchestrator's step function only advances the
//! generation counter — the cancellation token each loop polls — and names
//! the action to carry out.

use crate::crd_spec::TemplateSpec;
use crate::status_table::{Status, StatusTable};
use crate::text::contains_seq;
use vstd::prelude::*;

verus! {

/// One event from the watch source.
#[derive(Debug)]
pub enum WatchEvent {
    /// The desired-state resource was created or updated; carries the new
    /// worker template.
    Applied(TemplateSpec),
    /// The resource was deleted; carries the last template.
    Deleted(TemplateSpec),
    /// The watch source resynchronized after a reconnect.
    Restarted,
    /// The stream yielded an error, carried as its rendered message.
    StreamError(String),
}

/// What the caller must carry out after one orchestrator step.
#[derive(Debug)]
pub enum OrchestratorAction {
    /// Start a status poller and, after the settle delay, an action
    /// controller for the new generation, under the carried template.
    StartGeneration(TemplateSpec),
    /// Drain the status table and delete every tracked pod from the
    /// cluster.
    TearDown,
    /// Log the resynchronization burst; by design it triggers no
    /// reconciliation.
    NoteRestart,
    /// Log a recoverable connection reset at warning level; the underlying
    /// stream is expected to reconnect.
    NoteRecoverableError,
    /// Log any other stream error at error level and keep watching.
    NoteError,
}

/// The orchestrator's state: which generation is currently allowed to run.
/// The counter is the cancellation token: starting a new generation
/// supersedes the previous token outright, and a loop started under an
/// older generation observes that and stops.
pub struct OrchestratorState {
    pub generation: u64,
}

/// The message fragment that marks a stream error as a recoverable
/// connection reset.
pub open spec fn reset_marker() -> Seq<char> {
    "os error 54"@
}

/// Is this stream error a recoverable connection reset, after which the
/// watch is expected to reconnect?
pub fn is_recoverable_stream_error(msg: &str) -> (r: bool)
    ensures
        r == contains_seq(msg@, reset_marker()),
{
    crate::text::contains_str(msg, "os error 54")
}

impl OrchestratorState {
    /// Before any event: generation zero, under which no loop was started.
    pub fn new() -> (s: Self)
        ensures
            s.generation == 0,
    {
        OrchestratorState { generation: 0 }
    }

    /// Has the generation a loop was started under been superseded? Each
    /// loop polls this once per iteration and exits once it holds.
    pub fn superseded(&self, started_under: u64) -> (r: bool)
        ensures
            r == (started_under != self.generation),
    {
        started_under != self.generation
    }

    /// React to one watch event: an applied or deleted resource supersedes
    /// the running generation; a resync and a stream error change nothing
    /// and are only reported, a connection reset more gently than any
    /// other error.
    pub fn handle_event(&mut self, event: WatchEvent) -> (a: OrchestratorAction)
        requires
            old(self).generation < u64::MAX,
        ensures
            match event {
                WatchEvent::Applied(t) => final(self).generation == old(self).generation + 1 && (
                a matches OrchestratorAction::StartGeneration(s) && s == t),
                WatchEvent::Deleted(_) => final(self).generation == old(self).generation + 1 && a
                    == OrchestratorAction::TearDown,
                WatchEvent::Restarted => final(self).generation == old(self).generation && a
                    == OrchestratorAction::NoteRestart,
                WatchEvent::StreamError(m) => final(self).generation == old(self).generation && a
                    == (if contains_seq(m@, reset_marker()) {
                    OrchestratorAction::NoteRecoverableError
                } else {
                    OrchestratorAction::NoteError
                }),
            },
    {
        match event {
            WatchEvent::Applied(t) => {
                self.generation = self.generation + 1;
                OrchestratorAction::StartGeneration(t)
            },
            WatchEvent::Deleted(_) => {
                self.generation = self.generation + 1;
                OrchestratorAction::TearDown
            },
            WatchEvent::Restarted => OrchestratorAction::NoteRestart,
            WatchEvent::StreamError(m) => {
                if is_recoverable_stream_error(m.as_str()) {
                    OrchestratorAction::NoteRecoverableError
                } else {
                    OrchestratorAction::NoteError
                }
            },
        }
    }
}

/// Empty the table for a deletion event, handing back every tracked pod
/// identifier so the caller can delete each named pod from the cluster.
/// Afterwards the table is empty; the returned identifiers are exactly the
/// pods that were tracked, each once.
pub fn drain_all(table: &mut StatusTable) -> (ids: Vec<String>)
    requires
        old(table).wf(),
    ensures
        final(table).wf(),
        final(table)@ == Map::<Seq<char>, Status>::empty(),
        ids@.len() == old(table)@.dom().len(),
        forall|i: int| 0 <= i < ids@.len() ==> old(table)@.contains_key(#[trigger] ids@[i]@),
        forall|k: Seq<char>|
            old(table)@.contains_key(k) ==> exists|i: int| 0 <= i < ids@.len() && ids@[i]@ == k,
{
    let ids = table.keys();
    table.clear();
    ids
}

} // verus!
