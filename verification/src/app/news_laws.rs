//! What an event of a worker, and a run in the terminal, leave on the dashboard.
use crate::app::interactive;
use crate::app::types::{AppEffectView, InteractiveRequestView};
use crate::app::use_laws;
use crate::app::worker_view::{WorkerViewModel, LOG_CAPACITY};
use crate::app::{self, AppView};
use crate::clock;
use crate::log_parser::LogParserView;
use crate::model;
use crate::state::{ActionLogEntryView, SessionHistoryView, WorkerRecordView};
use crate::text;
use crate::text_laws;
use crate::ui::helpers;
use crate::ui::modals;
use crate::ui::types::LogViewMode;
use crate::worker::{
    PermissionDecisionView, PermissionRequestView, WorkerEventView, WorkerId, WorkerSnapshotView,
};
use vstd::prelude::*;

verus! {

/// Whether a worker of a number is at a place.
pub open spec fn is_at(app: AppView, id: WorkerId, i: int) -> bool {
    0 <= i < app.workers.len() && app.workers[i].snapshot.id == id
}

/// Whether no worker has a number.
pub open spec fn is_new(app: AppView, id: WorkerId) -> bool {
    forall|i: int| 0 <= i < app.workers.len() ==> (#[trigger] app.workers[i]).snapshot.id != id
}

/// A line of the action log that is wanted on disk.
pub open spec fn line_of(worker: Option<Seq<char>>, message: Seq<char>, now: i128) -> AppEffectView {
    AppEffectView::AppendActionLog(
        ActionLogEntryView { timestamp: clock::timestamp_text(now), message, worker },
    )
}

/// Whether all workers but the one at a place are as they were.
pub open spec fn others_stay(before: Seq<WorkerViewModel>, after: Seq<WorkerViewModel>, i: int) -> bool {
    &&& after.len() == before.len()
    &&& forall|j: int| 0 <= j < before.len() && j != i ==> #[trigger] after[j] == before[j]
}

proof fn lemma_at(app: AppView, id: WorkerId, i: int)
    requires
        app.wf(),
        is_at(app, id, i),
    ensures
        app.find(id) == Some(i),
{
    let ids = app::view_ids(app.workers);
    model::first_index_is_first(ids, id);
    assert(ids[i] == id);
}

proof fn lemma_new(app: AppView, id: WorkerId)
    requires
        is_new(app, id),
    ensures
        app.find(id) is None,
{
    let ids = app::view_ids(app.workers);
    model::first_index_is_first(ids, id);
    if let Some(i) = app.find(id) {
        assert(ids[i] == id);
        assert(app.workers[i].snapshot.id == id);
    }
}

/// What is new about a worker that is known takes the place of what was known, its log and its
/// sessions staying; all other workers stay as they are.
pub proof fn known_workers_are_brought_up_to_date(
    app: AppView,
    snapshot: WorkerSnapshotView,
    i: int,
    now: i128,
)
    requires
        app.wf(),
        is_at(app, snapshot.id, i),
    ensures
        ({
            let after = app.after_event(WorkerEventView::Updated(snapshot), now);
            &&& others_stay(app.workers, after.workers, i)
            &&& after.workers[i].snapshot == snapshot
            &&& after.workers[i].logs == app.workers[i].logs
            &&& after.workers[i].structured_logs == app.workers[i].structured_logs
            &&& after.workers[i].session_histories == app.workers[i].session_histories
            &&& after.workers[i].log_parser == app.workers[i].log_parser
            &&& after.effects == app.effects.push(
                line_of(Some(snapshot.name), snapshot.name + ": "@ + snapshot.last_event, now),
            )
        }),
        app.after_event(WorkerEventView::Created(snapshot), now).workers == app.after_event(
            WorkerEventView::Updated(snapshot),
            now,
        ).workers,
{
    lemma_at(app, snapshot.id, i);
}

/// A worker that was not known comes behind the others, with nothing in its log.
pub proof fn new_workers_come_last(app: AppView, snapshot: WorkerSnapshotView, now: i128)
    requires
        is_new(app, snapshot.id),
    ensures
        ({
            let after = app.after_event(WorkerEventView::Created(snapshot), now);
            let n = app.workers.len() as int;
            &&& after.workers.len() == n + 1
            &&& after.workers.take(n) == app.workers
            &&& after.workers[n].snapshot == snapshot
            &&& after.workers[n].logs.len() == 0
            &&& after.workers[n].structured_logs.len() == 0
            &&& after.workers[n].session_histories.len() == 0
            &&& after.workers[n].log_parser == LogParserView::initial()
            &&& after.effects == app.effects.push(
                line_of(
                    Some(snapshot.name),
                    snapshot.name + " をプロビジョニングしました (workflow: "@ + snapshot.workflow
                        + ", steps: "@ + text::decimal(snapshot.total_steps as nat) + ")"@,
                    now,
                ),
            )
        }),
        app.after_event(WorkerEventView::Updated(snapshot), now).workers == app.after_event(
            WorkerEventView::Created(snapshot),
            now,
        ).workers,
{
    lemma_new(app, snapshot.id);
    let after = app.after_event(WorkerEventView::Created(snapshot), now);
    assert(after.workers.take(app.workers.len() as int) =~= app.workers);
}

/// A line stands at the end of the log of its worker: of what was there at most the first line
/// goes, and only where the log is full. The worker is otherwise as it was, and so are the others.
pub proof fn lines_stand_in_the_log_of_their_worker(
    app: AppView,
    id: WorkerId,
    line: Seq<char>,
    i: int,
    now: i128,
)
    requires
        app.wf(),
        is_at(app, id, i),
        app.workers[i].logs.len() <= LOG_CAPACITY,
    ensures
        ({
            let after = app.after_event(WorkerEventView::Log { id, line }, now);
            let logs = app.workers[i].logs;
            &&& others_stay(app.workers, after.workers, i)
            &&& after.workers[i].logs.last() == line
            &&& logs.len() < LOG_CAPACITY ==> after.workers[i].logs.drop_last() == logs
            &&& logs.len() == LOG_CAPACITY ==> after.workers[i].logs.drop_last()
                == logs.drop_first()
            &&& after.workers[i].snapshot == app.workers[i].snapshot
            &&& after.workers[i].session_histories == app.workers[i].session_histories
            &&& after.effects == app.effects
            &&& after.log_messages == app.log_messages
        }),
{
    lemma_at(app, id, i);
    let after = app.after_event(WorkerEventView::Log { id, line }, now);
    let logs = app.workers[i].logs;
    if logs.len() < LOG_CAPACITY {
        assert(after.workers[i].logs.drop_last() =~= logs);
    } else {
        assert(after.workers[i].logs.drop_last() =~= logs.drop_first());
    }
}

/// A worker that is deleted leaves the others in their order; what is kept of it is to be deleted
/// too, under its name, and the action log tells it.
pub proof fn deleted_workers_leave(
    app: AppView,
    id: WorkerId,
    message: Seq<char>,
    i: int,
    now: i128,
)
    requires
        app.wf(),
        is_at(app, id, i),
    ensures
        ({
            let after = app.after_event(WorkerEventView::Deleted { id, message }, now);
            let name = app.workers[i].snapshot.name;
            &&& after.workers.len() == app.workers.len() - 1
            &&& forall|j: int| 0 <= j < i ==> #[trigger] after.workers[j] == app.workers[j]
            &&& forall|j: int|
                i <= j < after.workers.len() ==> #[trigger] after.workers[j] == app.workers[j + 1]
            &&& after.effects == app.effects.push(AppEffectView::DeleteWorkerState { name }).push(
                line_of(Some(name), message, now),
            )
        }),
{
    lemma_at(app, id, i);
}

/// What goes wrong with a worker stands in its log and in the action log.
pub proof fn errors_are_told(
    app: AppView,
    id: WorkerId,
    message: Seq<char>,
    i: int,
    now: i128,
)
    requires
        app.wf(),
        is_at(app, id, i),
    ensures
        ({
            let after = app.after_event(WorkerEventView::Error { id: Some(id), message }, now);
            &&& others_stay(app.workers, after.workers, i)
            &&& after.workers[i].logs.last() == "エラー: "@ + message
            &&& after.workers[i].snapshot == app.workers[i].snapshot
            &&& after.effects == app.effects.push(
                line_of(Some(app.workers[i].snapshot.name), "エラー: "@ + message, now),
            )
        }),
        app.after_event(WorkerEventView::Error { id: None, message }, now).effects
            == app.effects.push(line_of(None, "エラー: "@ + message, now)),
        app.after_event(WorkerEventView::Error { id: None, message }, now).workers == app.workers,
{
    lemma_at(app, id, i);
}

/// A permission request is shown under the name of its worker, with allowing selected, until it is
/// answered; nothing is allowed by itself.
pub proof fn requests_are_shown(
    app: AppView,
    id: WorkerId,
    request: PermissionRequestView,
    i: int,
    now: i128,
)
    requires
        app.wf(),
        is_at(app, id, i),
    ensures
        ({
            let after = app.after_event(WorkerEventView::PermissionRequested { id, request }, now);
            let name = app.workers[i].snapshot.name;
            &&& match after.permission_prompt {
                Some(p) => {
                    &&& p.worker_id == id
                    &&& p.worker_name == name
                    &&& p.request == request
                    &&& p.selection is Allow
                },
                None => false,
            }
            &&& after.manager == app.manager
            &&& others_stay(app.workers, after.workers, i)
            &&& after.workers[i].snapshot == app.workers[i].snapshot
            &&& after.permission_tracker.contains_key(request.request_id)
            &&& after.permission_tracker[request.request_id].worker_name == name
            &&& after.permission_tracker[request.request_id].step_name == request.step_name
            &&& after.workers[i].logs.last() == "権限確認待ち: ステップ='"@ + request.step_name
                + "', ツール="@ + modals::tools_text(request.allowed_tools) + ", モード="@
                + helpers::mode_label(request.permission_mode)
            &&& after.effects == app.effects.push(
                line_of(
                    Some(name),
                    "ステップ '"@ + request.step_name + "' の権限確認を受信しました (ツール: "@
                        + modals::tools_text(request.allowed_tools) + ", モード: "@
                        + helpers::mode_label(request.permission_mode) + ")"@,
                    now,
                ),
            )
        }),
{
    lemma_at(app, id, i);
}

/// Once a request that is remembered is answered, the log of its worker and the action log say of
/// its step whether it was allowed or denied.
pub proof fn answers_are_told(
    app: AppView,
    id: WorkerId,
    request_id: u64,
    decision: PermissionDecisionView,
    i: int,
    now: i128,
)
    requires
        app.wf(),
        is_at(app, id, i),
        app.permission_tracker.contains_key(request_id),
    ensures
        ({
            let after = app.after_event(
                WorkerEventView::PermissionResolved { id, request_id, decision },
                now,
            );
            let entry = app.permission_tracker[request_id];
            let message = "ステップ '"@ + entry.step_name + "' の権限を"@ + (match decision {
                PermissionDecisionView::Allow { .. } => "許可"@,
                PermissionDecisionView::Deny => "拒否"@,
            }) + "しました"@;
            &&& others_stay(app.workers, after.workers, i)
            &&& after.workers[i].logs.last() == message
            &&& after.effects == app.effects.push(line_of(Some(entry.worker_name), message, now))
            &&& app.permission_prompt matches Some(p) ==> p.request.request_id == request_id
                ==> after.permission_prompt is None
            &&& app.permission_prompt matches Some(p) ==> p.request.request_id != request_id
                ==> after.permission_prompt == app.permission_prompt
        }),
{
    lemma_at(app, id, i);
}

/// An archived worker whose record is gone leaves the others in their order; where it could not be
/// deleted, all stay and the reason is told.
pub proof fn deleted_archives_leave(
    app: AppView,
    id: WorkerId,
    error: Option<Seq<char>>,
    i: int,
    now: i128,
)
    requires
        app.wf(),
        is_at(app, id, i),
    ensures
        ({
            let after = app.archive_deleted(id, error, now);
            match error {
                Some(e) => {
                    &&& after.workers == app.workers
                    &&& after.effects == app.effects.push(
                        line_of(None, "アーカイブ削除に失敗しました: "@ + e, now),
                    )
                },
                None => {
                    &&& after.workers.len() == app.workers.len() - 1
                    &&& forall|j: int| 0 <= j < i ==> #[trigger] after.workers[j] == app.workers[j]
                    &&& forall|j: int|
                        i <= j < after.workers.len() ==> #[trigger] after.workers[j]
                            == app.workers[j + 1]
                },
            }
        }),
{
    lemma_at(app, id, i);
}

proof fn lemma_next(app: AppView, event: WorkerEventView, now: i128)
    ensures
        app.after_next(event, now) == app.after_event(event, now),
{
    reveal(AppView::after_next);
}

proof fn lemma_one_more(
    app: AppView,
    events: Seq<WorkerEventView>,
    event: WorkerEventView,
    times: Seq<i128>,
    now: i128,
)
    requires
        times.len() == events.len(),
    ensures
        app.after_events(events.push(event), times.push(now)) == app.after_events(
            events,
            times.push(now),
        ).after_next(event, now),
{
    assert(events.push(event).drop_last() =~= events);
}

/// Of several events each finds the dashboard as those before it left it.
pub proof fn events_happen_one_by_one(
    app: AppView,
    events: Seq<WorkerEventView>,
    event: WorkerEventView,
    times: Seq<i128>,
    now: i128,
)
    requires
        times.len() == events.len(),
    ensures
        events.len() == 0 ==> app.after_events(events, times) == app,
        app.after_events(events.push(event), times.push(now)) == app.after_events(
            events,
            times.push(now),
        ).after_event(event, now),
{
    lemma_one_more(app, events, event, times, now);
    lemma_next(app.after_events(events, times.push(now)), event, now);
}

/// Time that goes on changes no worker and sends nothing.
pub proof fn time_changes_no_worker(app: AppView)
    ensures
        app.ticked().workers == app.workers,
        app.ticked().manager == app.manager,
        app.ticked().effects == app.effects,
        app.ticked().input_mode == app.input_mode,
        app.ticked().permission_prompt == app.permission_prompt,
{
}

/// A run in the terminal goes on with an earlier session exactly where there is one.
pub proof fn earlier_sessions_are_gone_on_with(request: InteractiveRequestView)
    ensures
        interactive::run_arguments(request).contains("--continue"@) <==> request.session_id is Some,
        request.session_id is None ==> interactive::run_arguments(request).len() == 0,
{
    if request.session_id is Some {
        assert(interactive::run_arguments(request)[0] == "--continue"@);
    }
}

/// A session that is kept stands behind those of its worker that were kept before; where it has an
/// identifier, other than the one for a session without any, it is the one that the worker goes on
/// with.
pub proof fn kept_sessions_stand_last(record: WorkerRecordView, history: SessionHistoryView)
    ensures
        ({
            let after = interactive::with_session(record, history);
            let id = history.session_id;
            &&& after.session_history.last() == history
            &&& after.session_history.drop_last() == record.session_history
            &&& id.len() > 0 && id != "unknown"@ ==> after.snapshot.session_id == Some(id)
            &&& id.len() == 0 || id == "unknown"@ ==> after.snapshot == record.snapshot
            &&& after.snapshot.name == record.snapshot.name
            &&& after.snapshot.worktree == record.snapshot.worktree
            &&& after.snapshot.status == record.snapshot.status
        }),
{
    assert(interactive::with_session(record, history).session_history.drop_last()
        =~= record.session_history);
}

/// The files that a run in the terminal has changed are listed one by one, as far as the first
/// ten, with the number of those that are left out.
pub proof fn changed_files_are_listed(product: Seq<char>, changes: Seq<char>, k: int)
    requires
        !text_laws::all_space(changes),
    ensures
        ({
            let lines = interactive::return_lines(product, Some(changes));
            let files = text::lines(changes);
            let start = interactive::return_lines(product, None).len() as int;
            &&& lines.take(start) == interactive::return_lines(product, None)
            &&& 0 <= k < files.len() && k < 10 ==> lines[start + 1 + k] == "  "@ + files[k]
            &&& files.len() > 10 ==> lines.len() == start + 13 && lines[start + 11]
                == "  ... あと "@ + text::decimal((files.len() - 10) as nat) + " 件"@
            &&& files.len() <= 10 ==> lines.len() == start + files.len() + 2
        }),
{
    text_laws::blank_texts_are_space(changes);
    let lines = interactive::return_lines(product, Some(changes));
    let start = interactive::return_lines(product, None).len() as int;
    assert(lines.take(start) =~= interactive::return_lines(product, None));
}

/// Where nothing has changed, nothing is said of it.
pub proof fn nothing_is_said_of_no_changes(product: Seq<char>, changes: Seq<char>)
    requires
        text_laws::all_space(changes),
    ensures
        interactive::return_lines(product, Some(changes)) == interactive::return_lines(
            product,
            None,
        ),
{
    text_laws::blank_texts_are_space(changes);
    assert(interactive::return_lines(product, Some(changes)) =~= interactive::return_lines(
        product,
        None,
    ));
}

proof fn lemma_logging_keeps_the_worker(view: WorkerViewModel, lines: Seq<Seq<char>>)
    ensures
        view.logged_all(lines).snapshot == view.snapshot,
        view.logged_all(lines).session_histories == view.session_histories,
    decreases lines.len(),
{
    if lines.len() > 0 {
        lemma_logging_keeps_the_worker(view, lines.drop_last());
    }
}

/// After a run in the terminal its worker, the first of that name, goes on with the session that
/// the run left, where it was kept and has an identifier; otherwise with the one that it had. The
/// other workers stay as they are, and the action log tells it.
pub proof fn runs_in_the_terminal_leave_their_session(
    app: AppView,
    name: Seq<char>,
    imported: Option<SessionHistoryView>,
    kept: bool,
    changes: Option<Seq<char>>,
    i: int,
    now: i128,
)
    requires
        0 <= i < app.workers.len(),
        app.workers[i].snapshot.name == name,
        forall|j: int| 0 <= j < i ==> (#[trigger] app.workers[j]).snapshot.name != name,
    ensures
        ({
            let after = app.returned(name, imported, kept, changes, now);
            &&& others_stay(app.workers, after.workers, i)
            &&& after.workers[i].snapshot.session_id == match imported {
                Some(history) => if kept && history.session_id.len() > 0 && history.session_id
                    != "unknown"@ {
                    Some(history.session_id)
                } else {
                    app.workers[i].snapshot.session_id
                },
                None => app.workers[i].snapshot.session_id,
            }
            &&& after.workers[i].snapshot.name == name
            &&& after.workers[i].snapshot.status == app.workers[i].snapshot.status
            &&& after.effects == app.effects.push(
                line_of(
                    None,
                    "インタラクティブセッションから復帰しました ("@ + name + ")"@,
                    now,
                ),
            )
        }),
{
    let names = interactive::view_names(app.workers);
    model::first_index_is_first(names, name);
    assert(names[i] == name);
    assert forall|j: int| 0 <= j < i implies names[j] != name by {
        assert(app.workers[j].snapshot.name != name);
    }
    assert(app.find_named(name) == Some(i));
    let noted = app.noted("インタラクティブセッションから復帰しました ("@ + name + ")"@, now);
    let resumed = match imported {
        Some(history) if kept => noted.resuming(name, history.session_id),
        _ => noted,
    };
    assert(interactive::view_names(resumed.workers) =~= names);
    lemma_logging_keeps_the_worker(
        resumed.workers[i],
        interactive::return_lines(app.product.name, changes),
    );
}

/// While the log that is shown scrolls by itself, it stands at its last line after every line of a
/// worker; otherwise it stays where it is.
pub proof fn logs_that_scroll_stand_at_their_end(
    app: AppView,
    id: WorkerId,
    line: Seq<char>,
    now: i128,
)
    requires
        app.log_view_mode == LogViewMode::Raw,
    ensures
        ({
            let after = app.after_event(WorkerEventView::Log { id, line }, now);
            &&& app.auto_scroll_logs && app.show_logs && app.log_messages.len() > 0
                && app.log_messages.len() <= usize::MAX ==> after.log_scroll
                == app.log_messages.len() - 1
            &&& !app.auto_scroll_logs || !app.show_logs ==> after.log_scroll == app.log_scroll
            &&& after.auto_scroll_logs == app.auto_scroll_logs
        }),
{
}

/// The sessions that were read of a worker are kept with it, and with no other.
pub proof fn sessions_are_kept_with_their_worker(
    app: AppView,
    id: WorkerId,
    histories: Seq<SessionHistoryView>,
    i: int,
)
    requires
        app.wf(),
        is_at(app, id, i),
    ensures
        ({
            let after = app.with_histories(id, histories);
            &&& others_stay(app.workers, after.workers, i)
            &&& after.workers[i].session_histories == histories
            &&& after.workers[i].snapshot == app.workers[i].snapshot
            &&& after.workers[i].logs == app.workers[i].logs
            &&& after.workers[i].structured_logs == app.workers[i].structured_logs
        }),
{
    lemma_at(app, id, i);
}

/// What comes of a worker that is not there is told under its number.
pub proof fn unknown_workers_go_by_their_number(
    app: AppView,
    id: WorkerId,
    request: PermissionRequestView,
    now: i128,
)
    requires
        is_new(app, id),
    ensures
        ({
            let after = app.after_event(WorkerEventView::PermissionRequested { id, request }, now);
            let name = "worker-"@ + text::decimal(id.0 as nat);
            &&& match after.permission_prompt {
                Some(p) => p.worker_name == name && p.worker_id == id && p.request == request,
                None => false,
            }
            &&& after.permission_tracker[request.request_id].worker_name == name
            &&& after.workers == app.workers
        }),
{
    lemma_new(app, id);
}

/// An answer to a request that is not remembered is told by the number of the request, under the
/// name of its worker.
pub proof fn answers_to_forgotten_requests_are_told(
    app: AppView,
    id: WorkerId,
    request_id: u64,
    decision: PermissionDecisionView,
    i: int,
    now: i128,
)
    requires
        app.wf(),
        is_at(app, id, i),
        !app.permission_tracker.contains_key(request_id),
    ensures
        ({
            let after = app.after_event(
                WorkerEventView::PermissionResolved { id, request_id, decision },
                now,
            );
            let message = "権限リクエスト (#"@ + text::decimal(request_id as nat) + ") を"@ + (
            match decision {
                PermissionDecisionView::Allow { .. } => "許可"@,
                PermissionDecisionView::Deny => "拒否"@,
            }) + "しました"@;
            &&& others_stay(app.workers, after.workers, i)
            &&& after.workers[i].logs.last() == message
            &&& after.effects == app.effects.push(
                line_of(Some(app.workers[i].snapshot.name), message, now),
            )
        }),
{
    lemma_at(app, id, i);
}

/// That a worker has another name is told with both names.
pub proof fn new_names_are_told(
    app: AppView,
    id: WorkerId,
    old_name: Seq<char>,
    new_name: Seq<char>,
    now: i128,
)
    ensures
        ({
            let after = app.after_event(WorkerEventView::Renamed { id, old_name, new_name }, now);
            &&& after.workers == app.workers
            &&& after.effects == app.effects.push(
                line_of(
                    Some(new_name),
                    "Worker renamed: '"@ + old_name + "' → '"@ + new_name + "'"@,
                    now,
                ),
            )
        }),
{
}

/// Where the selected worker leaves the screen at its end, the last one that is left is selected;
/// a selection that is still on the screen stays where it is.
pub proof fn the_selection_stays_on_the_screen(app: AppView)
    requires
        app.workers.len() <= usize::MAX,
    ensures
        ({
            let shown = use_laws::shown_before(
                app.workers,
                app.status_filter,
                app.workers.len() as int,
            );
            let after = app.ticked();
            &&& app.selected < shown ==> after.selected == app.selected && after.log_scroll
                == app.log_scroll && after.selected_step == app.selected_step
            &&& app.selected >= shown > 0 ==> after.selected == shown - 1 && after.log_scroll == 0
                && after.selected_step == 0
            &&& shown == 0 ==> after.selected == 0
        }),
{
    let n = app.workers.len() as int;
    use_laws::lemma_visible_places(app.workers, app.status_filter, n, n);
}

} // verus!
