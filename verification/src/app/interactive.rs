//! Runs of an agent in the terminal: how they start, and what they leave behind.
use crate::app::types::{InteractiveRequest, InteractiveRequestView};
use crate::app::worker_view::{WorkerView, WorkerViewModel};
use crate::app::{self, App, AppView};
use crate::model;
use crate::state::{
    SessionHistory, SessionHistoryView, WorkerRecord, WorkerRecordView, WorkerSnapshotDataView,
};
use crate::text::{self, cat2, cat3, is_blank, lines_of, same, usize_text};
use crate::worker::WorkerSnapshotView;
use vstd::prelude::*;

verus! {

/// The arguments of a run: an earlier session is taken up again.
pub open spec fn run_arguments(request: InteractiveRequestView) -> Seq<Seq<char>> {
    if request.session_id is Some {
        seq!["--continue"@]
    } else {
        seq![]
    }
}

/// Returns the arguments of a run.
pub fn interactive_args(request: &InteractiveRequest) -> (r: Vec<String>)
    ensures
        r.deep_view() == run_arguments(request.deep_view()),
{
    let mut r: Vec<String> = Vec::new();
    if request.session_id.is_some() {
        r.push("--continue".to_owned());
    }
    assert(r.deep_view() =~= run_arguments(request.deep_view()));
    r
}

/// Whether a session can be taken up again.
pub open spec fn resumable(session_id: Seq<char>) -> bool {
    session_id.len() > 0 && session_id != "unknown"@
}

/// Returns whether a session can be taken up again.
pub fn is_resumable(session_id: &str) -> (r: bool)
    ensures
        r == resumable(session_id@),
{
    !session_id.is_empty() && !same(session_id, "unknown")
}

/// What is kept of a worker, with one more session.
pub open spec fn with_session(
    record: WorkerRecordView,
    history: SessionHistoryView,
) -> WorkerRecordView {
    WorkerRecordView {
        session_history: record.session_history.push(history),
        snapshot: if resumable(history.session_id) {
            WorkerSnapshotDataView {
                session_id: Some(history.session_id),
                ..record.snapshot
            }
        } else {
            record.snapshot
        },
        ..record
    }
}

/// Returns what is kept of a worker, with one more session.
pub fn record_session(record: WorkerRecord, history: &SessionHistory) -> (r: WorkerRecord)
    ensures
        r.deep_view() == with_session(record.deep_view(), history.deep_view()),
{
    let mut record = record;
    let ghost before = record.session_history.deep_view();
    record.session_history.push(history.clone());
    assert(record.session_history.deep_view() =~= before.push(history.deep_view()));
    if is_resumable(history.session_id.as_str()) {
        record.snapshot.session_id = Some(history.session_id.clone());
    }
    record
}

/// The lines for the log of a worker whose run in the terminal is over.
pub open spec fn farewell(product: Seq<char>) -> Seq<Seq<char>> {
    seq![
        "━━━━━━━━━━━━━━━━━━━━━━━━━━━━━━━━━━━━━━━━"@,
        "🎯 Interactive "@ + product + " Session 完了"@,
        "━━━━━━━━━━━━━━━━━━━━━━━━━━━━━━━━━━━━━━━━"@,
        ""@,
        "インタラクティブセッションでの変更が完了しました。"@,
        ""@,
        "📋 セッション履歴を確認するには:"@,
        "  1. このワーカーを選択"@,
        "  2. 's' キーを押す"@,
        "  3. セッション詳細を確認"@,
        ""@,
    ]
}

/// The lines for the log of a worker about the files that a run has changed: ten of them, and
/// how many more there are.
pub open spec fn change_lines(changes: Seq<char>) -> Seq<Seq<char>> {
    let all = text::lines(changes);
    if text::blank(changes) {
        seq![]
    } else {
        let shown = if all.len() > 10 {
            10
        } else {
            all.len()
        };
        seq!["📝 変更されたファイル:"@] + Seq::new(shown, |i: int| "  "@ + all[i]) + (if all.len()
            > 10 {
            seq!["  ... あと "@ + text::decimal((all.len() - 10) as nat) + " 件"@]
        } else {
            seq![]
        }) + seq![""@]
    }
}

/// All lines for the log of a worker whose run in the terminal is over; without a report of
/// the changes nothing is said of them.
pub open spec fn return_lines(product: Seq<char>, changes: Option<Seq<char>>) -> Seq<Seq<char>> {
    match changes {
        Some(c) => farewell(product) + change_lines(c),
        None => farewell(product),
    }
}

fn push_text(lines: &mut Vec<String>, line: &str)
    ensures
        final(lines).deep_view() == old(lines).deep_view().push(line@),
{
    let ghost before = lines.deep_view();
    lines.push(line.to_owned());
    assert(lines.deep_view() =~= before.push(line@));
}

fn farewell_lines(product: &str) -> (r: Vec<String>)
    ensures
        r.deep_view() == farewell(product@),
{
    let mut r: Vec<String> = Vec::new();
    assert(r.deep_view() =~= seq![]);
    push_text(&mut r, "━━━━━━━━━━━━━━━━━━━━━━━━━━━━━━━━━━━━━━━━");
    push_text(&mut r, cat3("🎯 Interactive ", product, " Session 完了").as_str());
    push_text(&mut r, "━━━━━━━━━━━━━━━━━━━━━━━━━━━━━━━━━━━━━━━━");
    push_text(&mut r, "");
    push_text(&mut r, "インタラクティブセッションでの変更が完了しました。");
    push_text(&mut r, "");
    push_text(&mut r, "📋 セッション履歴を確認するには:");
    push_text(&mut r, "  1. このワーカーを選択");
    push_text(&mut r, "  2. 's' キーを押す");
    push_text(&mut r, "  3. セッション詳細を確認");
    push_text(&mut r, "");
    assert(r.deep_view() =~= farewell(product@));
    r
}

fn push_changes(lines: &mut Vec<String>, changes: &str)
    ensures
        final(lines).deep_view() == old(lines).deep_view() + change_lines(changes@),
{
    let ghost start = lines.deep_view();
    if is_blank(changes) {
        assert(lines.deep_view() =~= start + Seq::<Seq<char>>::empty());
        return ;
    }
    let all = lines_of(changes);
    let ghost texts = text::lines(changes@);
    assert(texts == all.deep_view());
    push_text(lines, "📝 変更されたファイル:");
    let ghost head = lines.deep_view();
    let shown: usize = if all.len() > 10 {
        10
    } else {
        all.len()
    };
    let ghost files = Seq::new(shown as nat, |i: int| "  "@ + texts[i]);
    assert(lines.deep_view() =~= head + files.take(0));
    for i in 0..shown
        invariant
            shown <= all.len(),
            texts == all.deep_view(),
            files == Seq::new(shown as nat, |i: int| "  "@ + texts[i]),
            lines.deep_view() == head + files.take(i as int),
    {
        push_text(lines, cat2("  ", all[i].as_str()).as_str());
        assert(lines.deep_view() =~= head + files.take(i + 1));
    }
    assert(files.take(shown as int) =~= files);
    if all.len() > 10 {
        push_text(
            lines,
            cat3("  ... あと ", usize_text(all.len() - 10).as_str(), " 件").as_str(),
        );
    }
    push_text(lines, "");
    assert(lines.deep_view() =~= start + change_lines(changes@));
}

/// Returns the lines for the log of a worker whose run in the terminal is over.
pub fn lines_on_return(product: &str, changes: &Option<String>) -> (r: Vec<String>)
    ensures
        r.deep_view() == return_lines(product@, changes.deep_view()),
{
    let mut lines = farewell_lines(product);
    if let Some(c) = changes {
        push_changes(&mut lines, c.as_str());
    }
    lines
}

/// No more than twenty-four lines are written, however many files have changed.
pub proof fn returns_are_short(product: Seq<char>, changes: Option<Seq<char>>)
    ensures
        return_lines(product, changes).len() <= 24,
{
}

/// The names of some workers.
pub open spec fn view_names(workers: Seq<WorkerViewModel>) -> Seq<Seq<char>> {
    Seq::new(workers.len(), |i: int| workers[i].snapshot.name)
}

impl AppView {
    /// The place of the first worker with a name.
    pub open spec fn find_named(self, name: Seq<char>) -> Option<int> {
        model::first_index(view_names(self.workers), name)
    }

    /// With the session of a worker kept in mind, so that the next run takes it up again.
    pub open spec fn resuming(self, name: Seq<char>, session_id: Seq<char>) -> AppView {
        match self.find_named(name) {
            Some(i) if resumable(session_id) => self.with_view(
                i,
                WorkerViewModel {
                    snapshot: WorkerSnapshotView {
                        session_id: Some(session_id),
                        ..self.workers[i].snapshot
                    },
                    ..self.workers[i]
                },
            ),
            _ => self,
        }
    }

    /// With some lines in the log of a worker.
    pub open spec fn worker_told(self, name: Seq<char>, lines: Seq<Seq<char>>) -> AppView {
        match self.find_named(name) {
            Some(i) => self.with_view(i, self.workers[i].logged_all(lines)),
            None => self,
        }
    }

    /// After a run in the terminal. The session that it left is kept where there is a record to
    /// keep it in.
    pub open spec fn returned(
        self,
        name: Seq<char>,
        imported: Option<SessionHistoryView>,
        kept: bool,
        changes: Option<Seq<char>>,
        now: i128,
    ) -> AppView {
        let noted = self.noted("インタラクティブセッションから復帰しました ("@ + name + ")"@, now);
        (match imported {
            Some(history) if kept => noted.resuming(name, history.session_id),
            _ => noted,
        }).worker_told(name, return_lines(self.product.name, changes))
    }
}

/// Returns the place of the first worker with a name.
fn find_name(workers: &Vec<WorkerView>, name: &str) -> (r: Option<usize>)
    ensures
        match r {
            Some(i) => i < workers.len() && model::first_index(
                view_names(workers.deep_view()),
                name@,
            ) == Some(i as int),
            None => model::first_index(view_names(workers.deep_view()), name@) is None,
        },
{
    let ghost names = view_names(workers.deep_view());
    proof {
        model::first_index_is_first(names, name@);
    }
    for i in 0..workers.len()
        invariant
            names == view_names(workers.deep_view()),
            forall|j: int| 0 <= j < i ==> names[j] != name@,
            match model::first_index(names, name@) {
                Some(k) => 0 <= k < names.len() && names[k] == name@ && forall|j: int|
                    0 <= j < k ==> names[j] != name@,
                None => forall|j: int| 0 <= j < names.len() ==> names[j] != name@,
            },
    {
        assert(names[i as int] == workers@[i as int].snapshot.name@);
        if same(workers[i].snapshot.name.as_str(), name) {
            return Some(i);
        }
    }
    None
}

impl App {
    /// Takes out the run in the terminal that has been asked for.
    pub fn take_interactive(&mut self) -> (r: Option<InteractiveRequest>)
        ensures
            r.deep_view() == old(self).deep_view().pending_interactive_mode,
            final(self).deep_view() == (AppView {
                pending_interactive_mode: None,
                ..old(self).deep_view()
            }),
    {
        self.pending_interactive_mode.take()
    }

    fn resume_with(&mut self, name: &str, session_id: &str)
        ensures
            final(self).deep_view() == old(self).deep_view().resuming(name@, session_id@),
    {
        if !is_resumable(session_id) {
            return ;
        }
        let ghost before = self.workers.deep_view();
        if let Some(i) = find_name(&self.workers, name) {
            let worker = &mut self.workers[i];
            worker.snapshot.session_id = Some(session_id.to_owned());
            assert(self.workers.deep_view() =~= before.update(
                i as int,
                WorkerViewModel {
                    snapshot: WorkerSnapshotView {
                        session_id: Some(session_id@),
                        ..before[i as int].snapshot
                    },
                    ..before[i as int]
                },
            ));
        }
    }

    fn tell_worker(&mut self, name: &str, lines: &Vec<String>)
        ensures
            final(self).deep_view() == old(self).deep_view().worker_told(name@, lines.deep_view()),
    {
        let ghost before = self.workers.deep_view();
        if let Some(i) = find_name(&self.workers, name) {
            let worker = &mut self.workers[i];
            worker.push_logs(lines);
            assert(self.workers.deep_view() =~= before.update(
                i as int,
                before[i as int].logged_all(lines.deep_view()),
            ));
        }
    }

    /// Takes in that a run in the terminal is over: `imported` is the session that it left,
    /// `record` what is kept of the worker, `changes` what the repository reports as changed.
    /// Returns what is to be kept of the worker from now on, where that has changed.
    pub fn interactive_returned(
        &mut self,
        name: &str,
        imported: &Option<SessionHistory>,
        record: Option<WorkerRecord>,
        changes: &Option<String>,
        now: i128,
    ) -> (r: Option<WorkerRecord>)
        ensures
            final(self).deep_view() == old(self).deep_view().returned(
                name@,
                imported.deep_view(),
                record is Some,
                changes.deep_view(),
                now,
            ),
            r.deep_view() == (match (imported.deep_view(), record.deep_view()) {
                (Some(history), Some(kept)) => Some(with_session(kept, history)),
                _ => None,
            }),
    {
        self.push_log(
            cat3("インタラクティブセッションから復帰しました (", name, ")"),
            now,
        );
        let updated = match (imported, record) {
            (Some(history), Some(record)) => {
                self.resume_with(name, history.session_id.as_str());
                Some(record_session(record, history))
            },
            _ => None,
        };
        let lines = lines_on_return(self.product.name.as_str(), changes);
        self.tell_worker(name, &lines);
        updated
    }
}

/// After a run in the terminal everything that is selected is there.
pub proof fn returns_keep_wf(
    app: AppView,
    name: Seq<char>,
    imported: Option<SessionHistoryView>,
    kept: bool,
    changes: Option<Seq<char>>,
    now: i128,
)
    requires
        app.wf(),
    ensures
        app.returned(name, imported, kept, changes, now).wf(),
{
    let noted = app.noted("インタラクティブセッションから復帰しました ("@ + name + ")"@, now);
    assert(noted.wf());
    let resumed = match imported {
        Some(history) if kept => noted.resuming(name, history.session_id),
        _ => noted,
    };
    model::first_index_is_first(view_names(noted.workers), name);
    if let Some(i) = noted.find_named(name) {
        app::lemma_status_kept(noted, i, resumed.workers[i]);
    }
    model::first_index_is_first(view_names(resumed.workers), name);
    if let Some(i) = resumed.find_named(name) {
        let told = resumed.workers[i].logged_all(return_lines(app.product.name, changes));
        lemma_logs_keep_snapshot(resumed.workers[i], return_lines(app.product.name, changes));
        app::lemma_status_kept(resumed, i, told);
    }
}

proof fn lemma_logs_keep_snapshot(view: WorkerViewModel, lines: Seq<Seq<char>>)
    ensures
        view.logged_all(lines).snapshot == view.snapshot,
    decreases lines.len(),
{
    if lines.len() > 0 {
        lemma_logs_keep_snapshot(view, lines.drop_last());
    }
}

/// A session that is kept is taken up again by the next run of its worker.
pub proof fn sessions_are_resumed(
    app: AppView,
    name: Seq<char>,
    history: SessionHistoryView,
    changes: Option<Seq<char>>,
    now: i128,
)
    requires
        app.find_named(name) is Some,
        resumable(history.session_id),
    ensures
        ({
            let after = app.returned(name, Some(history), true, changes, now);
            let i = app.find_named(name)->0;
            &&& after.find_named(name) == Some(i)
            &&& after.workers[i].snapshot.session_id == Some(history.session_id)
        }),
{
    let noted = app.noted("インタラクティブセッションから復帰しました ("@ + name + ")"@, now);
    let resumed = noted.resuming(name, history.session_id);
    let after = app.returned(name, Some(history), true, changes, now);
    let i = app.find_named(name)->0;
    model::first_index_is_first(view_names(app.workers), name);
    assert(view_names(resumed.workers) =~= view_names(app.workers));
    lemma_logs_keep_snapshot(resumed.workers[i], return_lines(app.product.name, changes));
    assert(view_names(after.workers) =~= view_names(app.workers));
}

} // verus!
