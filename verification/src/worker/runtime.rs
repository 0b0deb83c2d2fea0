//! Workers as the manager keeps them.
use crate::config::{Workflow, WorkflowView};
use crate::model::{self, push_line, queue_lines, Duplicate};
use crate::state::{
    SessionHistory, SessionHistoryView, WorkerRecord, WorkerRecordView, WorkerSnapshotData,
    WorkerSnapshotDataView,
};
use crate::worker::{WorkerEvent, WorkerEventView, WorkerSnapshot, WorkerSnapshotView};
use std::collections::VecDeque;
use vstd::prelude::*;

verus! {

/// How many log lines of a worker are kept.
pub const MAX_LOGS: usize = 1000;

/// A worker that the manager looks after, with the events that it has yet to report.
#[derive(Debug)]
pub struct WorkerRuntime {
    pub snapshot: WorkerSnapshot,
    pub worktree_path: String,
    pub branch: String,
    pub workflow: Workflow,
    pub completed_steps: usize,
    pub logs: VecDeque<String>,
    pub session_histories: Vec<SessionHistory>,
    pub default_sandbox_mode: bool,
    pub events: Vec<WorkerEvent>,
}

/// What a [`WorkerRuntime`] holds.
#[verifier::ext_equal]
pub struct WorkerRuntimeView {
    pub snapshot: WorkerSnapshotView,
    pub worktree_path: Seq<char>,
    pub branch: Seq<char>,
    pub workflow: WorkflowView,
    pub completed_steps: usize,
    pub logs: Seq<Seq<char>>,
    pub session_histories: Seq<SessionHistoryView>,
    pub default_sandbox_mode: bool,
    pub events: Seq<WorkerEventView>,
}

impl DeepView for WorkerRuntime {
    type V = WorkerRuntimeView;

    open spec fn deep_view(&self) -> WorkerRuntimeView {
        WorkerRuntimeView {
            snapshot: self.snapshot.deep_view(),
            worktree_path: self.worktree_path@,
            branch: self.branch@,
            workflow: self.workflow.deep_view(),
            completed_steps: self.completed_steps,
            logs: model::queued(self.logs),
            session_histories: self.session_histories.deep_view(),
            default_sandbox_mode: self.default_sandbox_mode,
            events: self.events.deep_view(),
        }
    }
}

impl WorkerRuntimeView {
    /// With one more line in the log, oldest lines giving way.
    pub open spec fn with_log(self, line: Seq<char>) -> WorkerRuntimeView {
        WorkerRuntimeView { logs: model::queue_push(self.logs, MAX_LOGS as nat, line), ..self }
    }

    /// With one more event to report.
    pub open spec fn reporting(self, event: WorkerEventView) -> WorkerRuntimeView {
        WorkerRuntimeView { events: self.events.push(event), ..self }
    }

    /// With one more line in the log that is reported too.
    pub open spec fn logged(self, line: Seq<char>) -> WorkerRuntimeView {
        self.with_log(line).reporting(WorkerEventView::Log { id: self.snapshot.id, line })
    }

    /// With some more lines in the log that are reported too.
    pub open spec fn logged_all(self, lines: Seq<Seq<char>>) -> WorkerRuntimeView
        decreases lines.len(),
    {
        if lines.len() == 0 {
            self
        } else {
            self.logged_all(lines.drop_last()).logged(lines.last())
        }
    }

    /// With another snapshot, which is reported.
    pub open spec fn updated(self, snapshot: WorkerSnapshotView) -> WorkerRuntimeView {
        WorkerRuntimeView { snapshot, ..self }.reporting(WorkerEventView::Updated(snapshot))
    }

    /// With one more session history.
    pub open spec fn with_history(self, history: SessionHistoryView) -> WorkerRuntimeView {
        WorkerRuntimeView {
            session_histories: self.session_histories.push(history),
            ..self
        }
    }
}

/// A worker that has done nothing yet.
pub open spec fn fresh_runtime(
    snapshot: WorkerSnapshotView,
    worktree_path: Seq<char>,
    branch: Seq<char>,
    workflow: WorkflowView,
    default_sandbox_mode: bool,
) -> WorkerRuntimeView {
    WorkerRuntimeView {
        snapshot,
        worktree_path,
        branch,
        workflow,
        completed_steps: 0,
        logs: seq![],
        session_histories: seq![],
        default_sandbox_mode,
        events: seq![],
    }
}

impl WorkerRuntime {
    /// Returns a worker that has done nothing yet.
    pub fn new(
        snapshot: WorkerSnapshot,
        worktree_path: String,
        branch: String,
        workflow: Workflow,
        default_sandbox_mode: bool,
    ) -> (r: Self)
        ensures
            r.deep_view() == fresh_runtime(
                snapshot.deep_view(),
                worktree_path@,
                branch@,
                workflow.deep_view(),
                default_sandbox_mode,
            ),
    {
        let r = WorkerRuntime {
            snapshot,
            worktree_path,
            branch,
            workflow,
            completed_steps: 0,
            logs: VecDeque::new(),
            session_histories: Vec::new(),
            default_sandbox_mode,
            events: Vec::new(),
        };
        assert(r.deep_view() =~= fresh_runtime(
            snapshot.deep_view(),
            worktree_path@,
            branch@,
            workflow.deep_view(),
            default_sandbox_mode,
        ));
        r
    }

    /// Returns the session histories.
    pub fn get_session_histories(&self) -> (r: Vec<SessionHistory>)
        ensures
            r.deep_view() == self.deep_view().session_histories,
    {
        self.session_histories.duplicate()
    }

    /// Adds a session history.
    pub fn add_session_history(&mut self, history: SessionHistory)
        ensures
            final(self).deep_view() == old(self).deep_view().with_history(history.deep_view()),
    {
        let ghost before = self.session_histories.deep_view();
        self.session_histories.push(history);
        assert(self.session_histories.deep_view() =~= before.push(history.deep_view()));
    }

    /// Returns the worker as the dashboard shows it.
    pub fn snapshot(&self) -> (r: WorkerSnapshot)
        ensures
            r.deep_view() == self.deep_view().snapshot,
    {
        self.snapshot.clone()
    }

    /// Adds a line to the log without a report.
    pub fn add_log(&mut self, line: String)
        ensures
            final(self).deep_view() == old(self).deep_view().with_log(line@),
    {
        push_line(&mut self.logs, MAX_LOGS, line);
    }

    /// Returns the lines of the log, oldest first.
    pub fn get_logs(&self) -> (r: Vec<String>)
        ensures
            r.deep_view() == self.deep_view().logs,
    {
        queue_lines(&self.logs)
    }

    /// Adds an event to report.
    pub fn report(&mut self, event: WorkerEvent)
        ensures
            final(self).deep_view() == old(self).deep_view().reporting(event.deep_view()),
    {
        let ghost before = self.events.deep_view();
        self.events.push(event);
        assert(self.events.deep_view() =~= before.push(event.deep_view()));
    }

    /// Adds a line to the log and reports it.
    pub fn send_log(&mut self, line: &str)
        ensures
            final(self).deep_view() == old(self).deep_view().logged(line@),
    {
        self.add_log(line.to_owned());
        let id = self.snapshot.id;
        self.report(WorkerEvent::Log { id, line: line.to_owned() });
    }

    /// Adds some lines to the log and reports them.
    pub fn send_logs(&mut self, lines: &Vec<String>)
        ensures
            final(self).deep_view() == old(self).deep_view().logged_all(lines.deep_view()),
    {
        let ghost before = self.deep_view();
        let ghost all = lines.deep_view();
        assert(all.take(0) =~= seq![]);
        for i in 0..lines.len()
            invariant
                all == lines.deep_view(),
                self.deep_view() == before.logged_all(all.take(i as int)),
        {
            assert(all.take(i + 1).drop_last() =~= all.take(i as int));
            self.send_log(lines[i].as_str());
        }
        assert(all.take(lines.len() as int) =~= all);
    }

    /// Reports the snapshot.
    pub fn report_update(&mut self)
        ensures
            final(self).deep_view() == old(self).deep_view().updated(
                old(self).deep_view().snapshot,
            ),
    {
        let snapshot = self.snapshot.clone();
        self.report(WorkerEvent::Updated(snapshot));
    }

    /// Takes out the events that are yet to be reported.
    pub fn take_events(&mut self) -> (r: Vec<WorkerEvent>)
        ensures
            r.deep_view() == old(self).deep_view().events,
            final(self).deep_view() == (WorkerRuntimeView {
                events: seq![],
                ..old(self).deep_view()
            }),
    {
        let mut out: Vec<WorkerEvent> = Vec::new();
        std::mem::swap(&mut out, &mut self.events);
        assert(self.events.deep_view() =~= seq![]);
        out
    }
}

/// What is kept on disk of a worker.
pub open spec fn record_of(rt: WorkerRuntimeView) -> WorkerRecordView {
    WorkerRecordView {
        snapshot: WorkerSnapshotDataView {
            id: rt.snapshot.id.0,
            name: rt.snapshot.name,
            issue: rt.snapshot.issue,
            agent: rt.snapshot.agent,
            worktree: rt.snapshot.worktree,
            branch: rt.snapshot.branch,
            status: rt.snapshot.status.text(),
            last_event: rt.snapshot.last_event,
            workflow: rt.snapshot.workflow,
            total_steps: rt.snapshot.total_steps,
            current_step: rt.snapshot.current_step,
            session_id: rt.snapshot.session_id,
        },
        logs: rt.logs,
        workflow: rt.workflow,
        completed_steps: rt.completed_steps,
        session_history: rt.session_histories,
    }
}

impl WorkerRuntime {
    /// Returns what is kept on disk of the worker.
    pub fn record(&self) -> (r: WorkerRecord)
        ensures
            r.deep_view() == record_of(self.deep_view()),
    {
        let snapshot = self.snapshot.clone();
        WorkerRecord {
            snapshot: WorkerSnapshotData {
                id: snapshot.id.0,
                name: snapshot.name,
                issue: snapshot.issue,
                agent: snapshot.agent,
                worktree: snapshot.worktree,
                branch: snapshot.branch,
                status: snapshot.status.label().to_owned(),
                last_event: snapshot.last_event,
                workflow: snapshot.workflow,
                total_steps: snapshot.total_steps,
                current_step: snapshot.current_step,
                session_id: snapshot.session_id,
            },
            logs: self.get_logs(),
            workflow: self.workflow.clone(),
            completed_steps: self.completed_steps,
            session_history: self.get_session_histories(),
        }
    }
}

} // verus!
