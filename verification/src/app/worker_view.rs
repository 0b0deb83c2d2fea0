//! Workers as the dashboard keeps them.
use crate::log_parser::{LogParser, LogParserView};
use crate::model::{self, extend_with, push_line};
use crate::state::{SessionEvent, SessionEventView, SessionHistory, SessionHistoryView};
use crate::text::{self, lines_of, same};
use crate::ui::types::{LogEntry, LogEntryView, StepStatus};
use crate::worker::{WorkerSnapshot, WorkerSnapshotView};
use std::collections::VecDeque;
use vstd::prelude::*;

verus! {

/// How many log lines of a worker are shown.
pub const LOG_CAPACITY: usize = 128;

/// A worker as the dashboard keeps it: its log, and the log taken apart into steps.
pub struct WorkerView {
    pub snapshot: WorkerSnapshot,
    pub logs: VecDeque<String>,
    pub structured_logs: Vec<LogEntry>,
    pub session_histories: Vec<SessionHistory>,
    pub log_parser: LogParser,
}

/// What a [`WorkerView`] holds.
#[verifier::ext_equal]
pub struct WorkerViewModel {
    pub snapshot: WorkerSnapshotView,
    pub logs: Seq<Seq<char>>,
    pub structured_logs: Seq<LogEntryView>,
    pub session_histories: Seq<SessionHistoryView>,
    pub log_parser: LogParserView,
}

impl DeepView for WorkerView {
    type V = WorkerViewModel;

    open spec fn deep_view(&self) -> WorkerViewModel {
        WorkerViewModel {
            snapshot: self.snapshot.deep_view(),
            logs: model::queued(self.logs),
            structured_logs: self.structured_logs.deep_view(),
            session_histories: self.session_histories.deep_view(),
            log_parser: self.log_parser.deep_view(),
        }
    }
}

impl WorkerViewModel {
    /// A worker without a log.
    pub open spec fn new(snapshot: WorkerSnapshotView) -> WorkerViewModel {
        WorkerViewModel {
            snapshot,
            logs: seq![],
            structured_logs: seq![],
            session_histories: seq![],
            log_parser: LogParserView::initial(),
        }
    }

    /// With one more line in the log; a line that ends a step adds the step.
    pub open spec fn logged(self, line: Seq<char>) -> WorkerViewModel {
        WorkerViewModel {
            logs: model::queue_push(self.logs, LOG_CAPACITY as nat, line),
            structured_logs: match self.log_parser.completed(line) {
                Some(entry) => self.structured_logs.push(entry),
                None => self.structured_logs,
            },
            log_parser: self.log_parser.after(line),
            ..self
        }
    }

    /// With some more lines in the log.
    pub open spec fn logged_all(self, lines: Seq<Seq<char>>) -> WorkerViewModel
        decreases lines.len(),
    {
        if lines.len() == 0 {
            self
        } else {
            self.logged_all(lines.drop_last()).logged(lines.last())
        }
    }
}

/// What the agent said before an event, back to the last tool that it used.
pub open spec fn said_before(events: Seq<SessionEventView>, i: int) -> Seq<Seq<char>>
    decreases i,
{
    if i <= 0 {
        seq![]
    } else {
        match events[i - 1] {
            SessionEventView::ToolUse { .. } => seq![],
            SessionEventView::AssistantMessage { text, .. } => said_before(events, i - 1)
                + text::lines(text),
            _ => said_before(events, i - 1),
        }
    }
}

/// What the agent thought before an event, back to the last tool that it used.
pub open spec fn thought_before(events: Seq<SessionEventView>, i: int) -> Seq<Seq<char>>
    decreases i,
{
    if i <= 0 {
        seq![]
    } else {
        match events[i - 1] {
            SessionEventView::ToolUse { .. } => seq![],
            SessionEventView::ThinkingBlock { content, .. } => thought_before(events, i - 1)
                + text::lines(content),
            _ => thought_before(events, i - 1),
        }
    }
}

/// What a tool gave back: the output of the first result of its name from an event on, up to
/// the next use of a tool.
pub open spec fn result_after(events: Seq<SessionEventView>, k: int, tool: Seq<char>) -> Seq<
    Seq<char>,
>
    decreases events.len() - k,
{
    if k < 0 || k >= events.len() {
        seq![]
    } else {
        match events[k] {
            SessionEventView::ToolUse { .. } => seq![],
            SessionEventView::ToolResult { name, output, .. } => if name == tool {
                match output {
                    Some(text) => text::lines(text),
                    None => seq![],
                }
            } else {
                result_after(events, k + 1, tool)
            },
            _ => result_after(events, k + 1, tool),
        }
    }
}

/// The steps of a session: one for each use of a tool among the first `n` events.
pub open spec fn tool_steps(events: Seq<SessionEventView>, n: int) -> Seq<LogEntryView>
    decreases n,
{
    if n <= 0 {
        seq![]
    } else {
        let before = tool_steps(events, n - 1);
        match events[n - 1] {
            SessionEventView::ToolUse { name, .. } => before.push(
                LogEntryView {
                    step_index: before.len() as usize,
                    step_name: name,
                    prompt_lines: said_before(events, n - 1),
                    result_lines: result_after(events, n, name),
                    thought_lines: thought_before(events, n - 1),
                    status: StepStatus::Success,
                },
            ),
            _ => before,
        }
    }
}

/// The steps of a session; one step for all of it where no tool was used and the agent had
/// anything to say.
pub open spec fn session_steps(events: Seq<SessionEventView>) -> Seq<LogEntryView> {
    let n = events.len() as int;
    let steps = tool_steps(events, n);
    let said = said_before(events, n);
    let thought = thought_before(events, n);
    if steps.len() > 0 || (said.len() == 0 && thought.len() == 0) {
        steps
    } else {
        seq![
            LogEntryView {
                step_index: 0,
                step_name: "Session"@,
                prompt_lines: said,
                result_lines: seq![],
                thought_lines: thought,
                status: StepStatus::Success,
            },
        ]
    }
}

fn find_result(events: &Vec<SessionEvent>, from: usize, tool: &str) -> (r: Vec<String>)
    requires
        from <= events.len(),
    ensures
        r.deep_view() == result_after(events.deep_view(), from as int, tool@),
{
    let ghost all = events.deep_view();
    for k in from..events.len()
        invariant
            from <= events.len(),
            all == events.deep_view(),
            result_after(all, from as int, tool@) == result_after(all, k as int, tool@),
    {
        assert(all[k as int] == events@[k as int].deep_view());
        match &events[k] {
            SessionEvent::ToolUse { .. } => {
                let none: Vec<String> = Vec::new();
                assert(none.deep_view() =~= seq![]);
                return none;
            },
            SessionEvent::ToolResult { name, output, .. } => {
                if same(name.as_str(), tool) {
                    match output {
                        Some(text) => {
                            return lines_of(text.as_str());
                        },
                        None => {
                            let none: Vec<String> = Vec::new();
                            assert(none.deep_view() =~= seq![]);
                            return none;
                        },
                    }
                }
            },
            _ => {},
        }
    }
    let none: Vec<String> = Vec::new();
    assert(none.deep_view() =~= seq![]);
    none
}

impl WorkerView {
    /// Returns a worker without a log.
    pub fn new(snapshot: WorkerSnapshot) -> (r: Self)
        ensures
            r.deep_view() == WorkerViewModel::new(snapshot.deep_view()),
    {
        let r = WorkerView {
            snapshot,
            logs: VecDeque::new(),
            structured_logs: Vec::new(),
            session_histories: Vec::new(),
            log_parser: LogParser::new(),
        };
        assert(r.deep_view() =~= WorkerViewModel::new(snapshot.deep_view()));
        r
    }

    /// Sets the session histories.
    pub fn set_session_histories(&mut self, histories: Vec<SessionHistory>)
        ensures
            final(self).deep_view() == (WorkerViewModel {
                session_histories: histories.deep_view(),
                ..old(self).deep_view()
            }),
    {
        self.session_histories = histories;
    }

    /// Sets the snapshot.
    pub fn update_snapshot(&mut self, snapshot: WorkerSnapshot)
        ensures
            final(self).deep_view() == (WorkerViewModel {
                snapshot: snapshot.deep_view(),
                ..old(self).deep_view()
            }),
    {
        self.snapshot = snapshot;
    }

    /// Adds a line to the log; a line that ends a step adds the step.
    pub fn push_log(&mut self, line: String)
        ensures
            final(self).deep_view() == old(self).deep_view().logged(line@),
    {
        let ghost steps = self.structured_logs.deep_view();
        let entry = self.log_parser.parse_line(line.as_str());
        push_line(&mut self.logs, LOG_CAPACITY, line);
        if let Some(entry) = entry {
            let ghost view = entry.deep_view();
            self.structured_logs.push(entry);
            assert(self.structured_logs.deep_view() =~= steps.push(view));
        }
    }

    /// Adds some lines to the log.
    pub fn push_logs(&mut self, lines: &Vec<String>)
        ensures
            final(self).deep_view() == old(self).deep_view().logged_all(lines.deep_view()),
    {
        let ghost before = self.deep_view();
        let ghost all = lines.deep_view();
        assert(all.take(0) =~= seq![]);
        for i in 0..lines.len()
            invariant
                all == lines.deep_view(),
                self.deep_view() == before.logged_all(all.take(i as int)),
        {
            assert(all.take(i + 1).drop_last() =~= all.take(i as int));
            self.push_log(lines[i].clone());
        }
        assert(all.take(lines.len() as int) =~= all);
    }

    /// Adds the steps of a session.
    pub fn add_session_history_logs(&mut self, history: &SessionHistory)
        ensures
            final(self).deep_view() == (WorkerViewModel {
                structured_logs: old(self).deep_view().structured_logs + session_steps(
                    history.deep_view().events,
                ),
                ..old(self).deep_view()
            }),
    {
        let entries = Self::convert_session_to_log_entries(history);
        extend_with(&mut self.structured_logs, &entries);
    }

    /// Returns the steps of a session.
    pub fn convert_session_to_log_entries(history: &SessionHistory) -> (r: Vec<LogEntry>)
        ensures
            r.deep_view() == session_steps(history.deep_view().events),
    {
        let events = &history.events;
        let ghost all = events.deep_view();
        let mut entries: Vec<LogEntry> = Vec::new();
        let mut said: Vec<String> = Vec::new();
        let mut thought: Vec<String> = Vec::new();
        assert(entries.deep_view() =~= seq![]);
        assert(said.deep_view() =~= seq![]);
        assert(thought.deep_view() =~= seq![]);
        for i in 0..events.len()
            invariant
                all == events.deep_view(),
                entries.deep_view() == tool_steps(all, i as int),
                said.deep_view() == said_before(all, i as int),
                thought.deep_view() == thought_before(all, i as int),
        {
            assert(all[i as int] == events@[i as int].deep_view());
            match &events[i] {
                SessionEvent::ToolUse { name, .. } => {
                    let ghost before = entries.deep_view();
                    let entry = LogEntry {
                        step_index: entries.len(),
                        step_name: name.clone(),
                        prompt_lines: said,
                        result_lines: find_result(events, i + 1, name.as_str()),
                        thought_lines: thought,
                        status: StepStatus::Success,
                    };
                    let ghost view = entry.deep_view();
                    entries.push(entry);
                    assert(entries.deep_view() =~= before.push(view));
                    said = Vec::new();
                    thought = Vec::new();
                    assert(said.deep_view() =~= seq![]);
                    assert(thought.deep_view() =~= seq![]);
                },
                SessionEvent::AssistantMessage { text, .. } => {
                    extend_with(&mut said, &lines_of(text.as_str()));
                },
                SessionEvent::ThinkingBlock { content, .. } => {
                    extend_with(&mut thought, &lines_of(content.as_str()));
                },
                _ => {},
            }
        }
        if entries.len() == 0 && (said.len() > 0 || thought.len() > 0) {
            let none: Vec<String> = Vec::new();
            assert(none.deep_view() =~= seq![]);
            entries.push(
                LogEntry {
                    step_index: 0,
                    step_name: "Session".to_owned(),
                    prompt_lines: said,
                    result_lines: none,
                    thought_lines: thought,
                    status: StepStatus::Success,
                },
            );
            assert(entries.deep_view() =~= session_steps(all));
        } else {
            assert(entries.deep_view().len() == entries.len());
            assert(said.deep_view().len() == said.len());
            assert(thought.deep_view().len() == thought.len());
        }
        entries
    }
}

/// The number of tool uses among the first `n` events.
pub open spec fn uses_among(events: Seq<SessionEventView>, n: int) -> nat
    decreases n,
{
    if n <= 0 {
        0
    } else {
        uses_among(events, n - 1) + (if events[n - 1] is ToolUse {
            1nat
        } else {
            0nat
        })
    }
}

/// A session has one step for each use of a tool, numbered from zero.
pub proof fn one_step_per_tool_use(events: Seq<SessionEventView>, n: int)
    requires
        0 <= n <= events.len(),
        events.len() <= usize::MAX,
    ensures
        tool_steps(events, n).len() == uses_among(events, n),
        tool_steps(events, n).len() <= n,
        forall|i: int|
            0 <= i < tool_steps(events, n).len() ==> (#[trigger] tool_steps(
                events,
                n,
            )[i]).step_index == i,
    decreases n,
{
    if n > 0 {
        one_step_per_tool_use(events, n - 1);
    }
}

/// However many lines are logged, the log of a worker view stays within its capacity.
pub proof fn view_log_is_bounded(view: WorkerViewModel, lines: Seq<Seq<char>>)
    requires
        view.logs.len() <= LOG_CAPACITY,
    ensures
        view.logged_all(lines).logs.len() <= LOG_CAPACITY,
    decreases lines.len(),
{
    if lines.len() > 0 {
        view_log_is_bounded(view, lines.drop_last());
    }
}

/// The steps that a worker view shows are those that its log completes, after those it had.
pub proof fn view_steps_follow_log(view: WorkerViewModel, lines: Seq<Seq<char>>)
    ensures
        view.logged_all(lines).structured_logs == view.structured_logs
            + view.log_parser.completed_all(lines),
        view.logged_all(lines).log_parser == view.log_parser.after_all(lines),
    decreases lines.len(),
{
    if lines.len() > 0 {
        view_steps_follow_log(view, lines.drop_last());
        let p = view.log_parser.after_all(lines.drop_last());
        match p.completed(lines.last()) {
            Some(entry) => {
                assert((view.structured_logs + view.log_parser.completed_all(
                    lines.drop_last(),
                )).push(entry) =~= view.structured_logs + view.log_parser.completed_all(lines));
            },
            None => {},
        }
    } else {
        assert(view.structured_logs + Seq::<LogEntryView>::empty() =~= view.structured_logs);
    }
}

} // verus!
