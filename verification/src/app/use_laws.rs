//! What a user reaches with a key: what is sent for it, what is asked for next, what is selected.
use crate::app::types::{
    AppEffectView, InputModeView, InteractiveRequestView, KeyCode, KeyEvent, NameInputNextAction,
    PermissionPromptStateView,
};
use crate::app::worker_view::WorkerViewModel;
use crate::app::{self, AppView};
use crate::app::event_handler;
use crate::clock;
use crate::config::{self, ConfigView};
use crate::model;
use crate::paths;
use crate::product::ProductView;
use crate::state::ActionLogEntryView;
use crate::text;
use crate::text_laws;
use crate::ui::helpers;
use crate::ui::types::{LogViewMode, AVAILABLE_TOOLS};
use crate::worker::{
    CreateWorkerRequestView, ExistingWorktreeView, PermissionDecisionView, WorkerCommandView,
    WorkerHandleView, WorkerId, WorkerStatus,
};
use vstd::prelude::*;

verus! {

/// Whether nothing but the dashboard itself takes the keys.
pub open spec fn idle(app: AppView) -> bool {
    app.permission_prompt is None && app.input_mode is None
}

/// Whether an input mode takes the keys.
pub open spec fn asks(app: AppView, mode: InputModeView) -> bool {
    app.permission_prompt is None && app.input_mode == Some(mode)
}

/// How many of the first `n` workers have the status that is filtered by.
pub open spec fn shown_before(
    workers: Seq<WorkerViewModel>,
    filter: Option<WorkerStatus>,
    n: int,
) -> int
    decreases n,
{
    if n <= 0 {
        0
    } else {
        shown_before(workers, filter, n - 1) + if filter is None || filter == Some(
            workers[n - 1].snapshot.status,
        ) {
            1int
        } else {
            0int
        }
    }
}

/// Whether a worker is on the screen, as the one that is selected.
pub open spec fn selects(app: AppView, i: int) -> bool {
    &&& 0 <= i < app.workers.len()
    &&& app.status_filter is None || app.status_filter == Some(app.workers[i].snapshot.status)
    &&& app.selected == shown_before(app.workers, app.status_filter, i)
}

/// Whether no worker is on the screen.
pub open spec fn shows_none(app: AppView) -> bool {
    forall|i: int|
        0 <= i < app.workers.len() ==> app.status_filter is Some && app.status_filter != Some(
            (#[trigger] app.workers[i]).snapshot.status,
        )
}

/// The commands on the way, and one more behind them.
pub open spec fn sent(app: AppView, command: WorkerCommandView) -> WorkerHandleView {
    WorkerHandleView { queue: app.manager.queue.push(command), open: app.manager.open }
}

/// What is wanted outside, and one more line of the action log behind it.
pub open spec fn told(app: AppView, message: Seq<char>, now: i128) -> Seq<AppEffectView> {
    app.effects.push(
        AppEffectView::AppendActionLog(
            ActionLogEntryView { timestamp: clock::timestamp_text(now), message, worker: None },
        ),
    )
}

/// Of the places of the visible workers, the one with so many visible workers before it is theirs.
pub proof fn lemma_visible_places(
    workers: Seq<WorkerViewModel>,
    filter: Option<WorkerStatus>,
    i: int,
    n: int,
)
    requires
        0 <= i <= n <= workers.len() <= usize::MAX,
    ensures
        app::visible_among(workers, filter, n).len() == shown_before(workers, filter, n),
        0 <= shown_before(workers, filter, i) <= shown_before(workers, filter, n) <= n,
        i < n && (filter is None || filter == Some(workers[i].snapshot.status)) ==> {
            &&& shown_before(workers, filter, i) < shown_before(workers, filter, n)
            &&& app::visible_among(workers, filter, n)[shown_before(workers, filter, i)] == i
        },
    decreases n,
{
    if n > 0 {
        if i < n {
            lemma_visible_places(workers, filter, i, n - 1);
        } else {
            lemma_visible_places(workers, filter, n - 1, n - 1);
        }
    }
}

/// The selected worker is the one with as many visible workers before it as the selection says.
pub proof fn the_selected_worker_is_on_the_screen(app: AppView, i: int)
    requires
        app.workers.len() <= usize::MAX,
        selects(app, i),
    ensures
        app.selected_place() == Some(i),
        app.selected_worker() == Some(app.workers[i]),
{
    lemma_visible_places(app.workers, app.status_filter, i, app.workers.len() as int);
}

/// Where no worker is on the screen, none is selected.
pub proof fn nothing_is_selected_on_an_empty_screen(app: AppView)
    requires
        app.workers.len() <= usize::MAX,
        shows_none(app),
    ensures
        app.selected_worker() is None,
        app.visible().len() == 0,
{
    let n = app.workers.len() as int;
    app::visible_are_workers(app.workers, app.status_filter, n);
    if app.visible().len() > 0 {
        let place = app.visible()[0] as int;
        assert(app::passes(app.workers[place], app.status_filter));
        assert(app.workers[place].snapshot.status == app.status_filter->0);
    }
}

/// A worker that is there is found by its number.
pub proof fn lemma_found(app: AppView, i: int)
    requires
        app.wf(),
        0 <= i < app.workers.len(),
    ensures
        app.find(app.workers[i].snapshot.id) == Some(i),
{
    let ids = app::view_ids(app.workers);
    model::first_index_is_first(ids, app.workers[i].snapshot.id);
    assert(ids[i] == app.workers[i].snapshot.id);
}

/// Deleting sends a command to delete the selected worker, and none other; of an archived one
/// only what is kept of it goes, and nothing is sent.
pub proof fn the_selected_worker_is_deleted(app: AppView, i: int, key: KeyEvent, now: i128)
    requires
        app.wf(),
        idle(app),
        selects(app, i),
        key.code == KeyCode::Char('d'),
    ensures
        ({
            let after = app.after_key(key, now);
            let worker = app.workers[i].snapshot;
            if worker.status == WorkerStatus::Archived {
                after == (AppView {
                    effects: app.effects.push(
                        AppEffectView::DeleteArchive { id: worker.id, name: worker.name },
                    ),
                    ..app
                })
            } else {
                app.manager.open ==> after == (AppView {
                    manager: sent(app, WorkerCommandView::Delete { id: worker.id }),
                    ..app
                })
            }
        }),
{
    the_selected_worker_is_on_the_screen(app, i);
    lemma_found(app, i);
}

/// Restarting sends a command to restart the selected worker, and none other; an archived one is
/// not started again.
pub proof fn the_selected_worker_is_restarted(app: AppView, i: int, key: KeyEvent, now: i128)
    requires
        app.wf(),
        idle(app),
        selects(app, i),
        key.code == KeyCode::Char('r'),
    ensures
        ({
            let after = app.after_key(key, now);
            let worker = app.workers[i].snapshot;
            if worker.status == WorkerStatus::Archived {
                &&& after.manager == app.manager
                &&& after.effects == told(
                    app,
                    "アーカイブされたワーカーは再起動できません"@,
                    now,
                )
            } else {
                app.manager.open ==> after == (AppView {
                    manager: sent(app, WorkerCommandView::Restart { id: worker.id }),
                    ..app
                })
            }
        }),
{
    the_selected_worker_is_on_the_screen(app, i);
    lemma_found(app, i);
}

/// A prompt goes, without the blank around it, to the selected worker, in the permission mode
/// that was chosen; to an archived one nothing goes.
pub proof fn prompts_go_to_the_selected_worker(
    app: AppView,
    i: int,
    buffer: Seq<char>,
    cursor: usize,
    permission_mode: Option<Seq<char>>,
    worker_name: Option<Seq<char>>,
    key: KeyEvent,
    now: i128,
)
    requires
        app.wf(),
        asks(
            app,
            InputModeView::FreePrompt {
                buffer,
                cursor,
                force_new: false,
                permission_mode,
                worker_name,
            },
        ),
        selects(app, i),
        !text_laws::all_space(buffer),
        key.code == KeyCode::Enter,
        app.manager.open,
    ensures
        ({
            let after = app.after_key(key, now);
            let worker = app.workers[i].snapshot;
            &&& after.input_mode is None
            &&& after.workers == app.workers
            &&& after.manager == if worker.status == WorkerStatus::Archived {
                app.manager
            } else {
                sent(
                    app,
                    WorkerCommandView::Continue {
                        id: worker.id,
                        prompt: text::trimmed(buffer),
                        permission_mode,
                    },
                )
            }
        }),
{
    text_laws::blank_texts_are_space(buffer);
    the_selected_worker_is_on_the_screen(app.in_mode(None), i);
}

/// A prompt for a new worker asks for one that runs it, under the name and in the permission mode
/// that were chosen, whatever is selected; so does a prompt where no worker is on the screen.
pub proof fn prompts_for_new_workers_ask_for_them(
    app: AppView,
    buffer: Seq<char>,
    cursor: usize,
    force_new: bool,
    permission_mode: Option<Seq<char>>,
    worker_name: Option<Seq<char>>,
    key: KeyEvent,
    now: i128,
)
    requires
        app.wf(),
        asks(
            app,
            InputModeView::FreePrompt { buffer, cursor, force_new, permission_mode, worker_name },
        ),
        force_new || shows_none(app),
        !text_laws::all_space(buffer),
        key.code == KeyCode::Enter,
        app.manager.open,
    ensures
        ({
            let after = app.after_key(key, now);
            &&& after.input_mode is None
            &&& after.workers == app.workers
            &&& after.manager == sent(
                app,
                WorkerCommandView::Create(
                    CreateWorkerRequestView {
                        workflow: None,
                        free_prompt: Some(text::trimmed(buffer)),
                        permission_mode,
                        name: worker_name,
                        issue: None,
                        agent: None,
                        existing_worktree: None,
                    },
                ),
            )
        }),
{
    text_laws::blank_texts_are_space(buffer);
    if shows_none(app) {
        nothing_is_selected_on_an_empty_screen(app.in_mode(None));
    }
}

/// A blank prompt is not sent.
pub proof fn blank_prompts_are_not_sent(
    app: AppView,
    buffer: Seq<char>,
    cursor: usize,
    force_new: bool,
    permission_mode: Option<Seq<char>>,
    worker_name: Option<Seq<char>>,
    key: KeyEvent,
    now: i128,
)
    requires
        asks(
            app,
            InputModeView::FreePrompt { buffer, cursor, force_new, permission_mode, worker_name },
        ),
        text_laws::all_space(buffer) || key.code == KeyCode::Esc,
        key.code == KeyCode::Enter || key.code == KeyCode::Esc,
    ensures
        app.after_key(key, now).input_mode is None,
        app.after_key(key, now).manager == app.manager,
{
    text_laws::blank_texts_are_space(buffer);
}

/// A name for a new worker asks for one of that name, without the blank around it, that runs the
/// workflow that was chosen; with no name, or with none at all, it is left to be made up.
pub proof fn named_workers_are_asked_for(
    app: AppView,
    buffer: Seq<char>,
    cursor: usize,
    workflow_name: Option<Seq<char>>,
    key: KeyEvent,
    now: i128,
)
    requires
        asks(
            app,
            InputModeView::NameInput {
                buffer,
                cursor,
                workflow_name,
                next_action: NameInputNextAction::CreateWithWorkflow,
            },
        ),
        key.code == KeyCode::Enter || key.code == KeyCode::Esc,
        app.manager.open,
    ensures
        ({
            let after = app.after_key(key, now);
            &&& after.input_mode is None
            &&& after.workers == app.workers
            &&& after.manager == sent(
                app,
                WorkerCommandView::Create(
                    CreateWorkerRequestView {
                        workflow: workflow_name,
                        free_prompt: None,
                        permission_mode: None,
                        name: if key.code == KeyCode::Esc || text_laws::all_space(buffer) {
                            None
                        } else {
                            Some(text::trimmed(buffer))
                        },
                        issue: None,
                        agent: None,
                        existing_worktree: None,
                    },
                ),
            )
        }),
{
    text_laws::blank_texts_are_space(buffer);
}

/// A name for a worker that is to run a prompt leads to the prompt, for a new worker of that name.
pub proof fn names_lead_to_the_prompt(
    app: AppView,
    buffer: Seq<char>,
    cursor: usize,
    workflow_name: Option<Seq<char>>,
    key: KeyEvent,
    now: i128,
)
    requires
        asks(
            app,
            InputModeView::NameInput {
                buffer,
                cursor,
                workflow_name,
                next_action: NameInputNextAction::CreateWithFreePrompt,
            },
        ),
        key.code == KeyCode::Enter || key.code == KeyCode::Esc,
    ensures
        app.after_key(key, now) == (AppView {
            input_mode: Some(
                InputModeView::FreePrompt {
                    buffer: seq![],
                    cursor: 0,
                    force_new: true,
                    permission_mode: None,
                    worker_name: if key.code == KeyCode::Esc || text_laws::all_space(buffer) {
                        None
                    } else {
                        Some(text::trimmed(buffer))
                    },
                },
            ),
            ..app
        }),
{
    text_laws::blank_texts_are_space(buffer);
}

/// The three ways to a new worker: one that runs the workflow in use, one that runs a prompt, and
/// one in a worktree that is there already.
pub proof fn new_workers_are_made_in_three_ways(
    app: AppView,
    selected: usize,
    key: KeyEvent,
    now: i128,
)
    requires
        app.wf(),
        asks(app, InputModeView::CreateWorkerSelection { selected }),
        key.code == KeyCode::Enter,
    ensures
        selected == 0 ==> app.after_key(key, now) == (AppView {
            input_mode: Some(
                InputModeView::NameInput {
                    buffer: seq![],
                    cursor: 0,
                    workflow_name: Some(app.workflows[app.selected_workflow_idx as int].name),
                    next_action: NameInputNextAction::CreateWithWorkflow,
                },
            ),
            ..app
        }),
        selected == 1 ==> app.after_key(key, now) == (AppView {
            input_mode: Some(
                InputModeView::NameInput {
                    buffer: seq![],
                    cursor: 0,
                    workflow_name: None,
                    next_action: NameInputNextAction::CreateWithFreePrompt,
                },
            ),
            ..app
        }),
        selected == 2 ==> app.after_key(key, now) == (AppView {
            input_mode: None,
            effects: app.effects.push(AppEffectView::ListWorktrees),
            ..app
        }),
{
}

/// A worktree that is chosen becomes that of a new worker, which runs the workflow in use.
pub proof fn chosen_worktrees_are_worked_in(
    app: AppView,
    worktrees: Seq<ExistingWorktreeView>,
    selected: usize,
    key: KeyEvent,
    now: i128,
)
    requires
        app.wf(),
        asks(app, InputModeView::WorktreeSelection { worktrees, selected }),
        selected < worktrees.len(),
        key.code == KeyCode::Enter,
        app.manager.open,
    ensures
        ({
            let after = app.after_key(key, now);
            let worktree = worktrees[selected as int];
            &&& after.input_mode is None
            &&& after.workers == app.workers
            &&& after.manager == sent(
                app,
                WorkerCommandView::Create(
                    CreateWorkerRequestView {
                        workflow: Some(app.workflows[app.selected_workflow_idx as int].name),
                        free_prompt: None,
                        permission_mode: None,
                        name: None,
                        issue: None,
                        agent: None,
                        existing_worktree: Some((worktree.path, worktree.branch)),
                    },
                ),
            )
        }),
{
}

/// The worktrees that were found are offered in their order, the first one selected; where there
/// are none, or where they could not be listed, that is told and nothing is asked.
pub proof fn found_worktrees_are_offered(
    app: AppView,
    listed: Result<Seq<ExistingWorktreeView>, Seq<char>>,
    now: i128,
)
    ensures
        match listed {
            Ok(worktrees) => if worktrees.len() > 0 {
                app.choosing_worktree(listed, now) == (AppView {
                    input_mode: Some(InputModeView::WorktreeSelection { worktrees, selected: 0 }),
                    ..app
                })
            } else {
                &&& app.choosing_worktree(listed, now).input_mode == app.input_mode
                &&& app.choosing_worktree(listed, now).effects == told(
                    app,
                    "既存のworktreeが見つかりませんでした"@,
                    now,
                )
            },
            Err(e) => {
                &&& app.choosing_worktree(listed, now).input_mode == app.input_mode
                &&& app.choosing_worktree(listed, now).effects == told(
                    app,
                    "worktreeの一覧取得に失敗しました: "@ + e,
                    now,
                )
            },
        },
{
}

/// Another name is asked for, and goes to the worker that was selected when it was asked for.
pub proof fn the_selected_worker_is_renamed(app: AppView, i: int, key: KeyEvent, now: i128)
    requires
        app.wf(),
        idle(app),
        selects(app, i),
        key.code == KeyCode::Char('n'),
    ensures
        app.after_key(key, now) == (AppView {
            input_mode: Some(
                InputModeView::RenameWorker {
                    buffer: seq![],
                    cursor: 0,
                    worker_id: app.workers[i].snapshot.id,
                },
            ),
            ..app
        }),
{
    the_selected_worker_is_on_the_screen(app, i);
}

/// A name that is entered goes, without the blank around it, to the worker that it is for; a
/// blank one goes nowhere.
pub proof fn names_go_to_their_worker(
    app: AppView,
    buffer: Seq<char>,
    cursor: usize,
    worker_id: WorkerId,
    key: KeyEvent,
    now: i128,
)
    requires
        asks(app, InputModeView::RenameWorker { buffer, cursor, worker_id }),
        key.code == KeyCode::Enter || key.code == KeyCode::Esc,
        app.manager.open,
    ensures
        ({
            let after = app.after_key(key, now);
            &&& after.input_mode is None
            &&& after.workers == app.workers
            &&& after.manager == if key.code == KeyCode::Esc || text_laws::all_space(buffer) {
                app.manager
            } else {
                sent(
                    app,
                    WorkerCommandView::Rename {
                        id: worker_id,
                        new_name: text::trimmed(buffer),
                    },
                )
            }
        }),
{
    text_laws::blank_texts_are_space(buffer);
}

/// The keys that ask for something: `c` for the way to a new worker, `i` for a prompt for the
/// selected one.
pub proof fn keys_ask_for_workers_and_prompts(app: AppView, key: KeyEvent, now: i128)
    requires
        idle(app),
    ensures
        key.code == KeyCode::Char('c') ==> app.after_key(key, now) == (AppView {
            input_mode: Some(InputModeView::CreateWorkerSelection { selected: 0 }),
            ..app
        }),
        key.code == KeyCode::Char('i') ==> app.after_key(key, now) == (AppView {
            input_mode: Some(
                InputModeView::FreePrompt {
                    buffer: seq![],
                    cursor: 0,
                    force_new: false,
                    permission_mode: None,
                    worker_name: None,
                },
            ),
            ..app
        }),
{
}

/// The selected worker is run in the terminal: in its worktree, going on with its session. An
/// archived one is not.
pub proof fn the_selected_worker_is_run_in_the_terminal(
    app: AppView,
    i: int,
    key: KeyEvent,
    now: i128,
)
    requires
        app.wf(),
        idle(app),
        selects(app, i),
        key.code == KeyCode::Char('I'),
        key.modifiers.shift,
    ensures
        ({
            let after = app.after_key(key, now);
            let worker = app.workers[i].snapshot;
            if worker.status == WorkerStatus::Archived {
                after.pending_interactive_mode == app.pending_interactive_mode
            } else {
                after == (AppView {
                    pending_interactive_mode: Some(
                        InteractiveRequestView {
                            worker_name: worker.name,
                            worktree_path: paths::joined(app.repo_root, worker.worktree),
                            session_id: worker.session_id,
                        },
                    ),
                    ..app
                })
            }
        }),
{
    the_selected_worker_is_on_the_screen(app, i);
    lemma_found(app, i);
}

/// `y` and Enter on what allows lead to the tools, none of them checked; `n`, Esc and Enter on
/// what denies answer that nothing is allowed, to the worker that asked.
pub proof fn requests_are_allowed_or_denied(
    app: AppView,
    prompt: PermissionPromptStateView,
    key: KeyEvent,
    now: i128,
)
    requires
        app.permission_prompt == Some(prompt),
        app.manager.open,
    ensures
        ({
            let after = app.after_key(key, now);
            let plain = !key.modifiers.shift && !key.modifiers.control && !key.modifiers.alt
                && !key.modifiers.other;
            let allows = key.code == KeyCode::Char('y') && plain || key.code == KeyCode::Enter
                && prompt.selection is Allow;
            let denies = key.code == KeyCode::Char('n') && plain || key.code == KeyCode::Esc
                || key.code == KeyCode::Enter && prompt.selection is Deny;
            &&& allows ==> after == (AppView {
                permission_prompt: None,
                input_mode: Some(
                    InputModeView::ToolSelection {
                        tools: Seq::new(8, |i: int| false),
                        selected_idx: 0,
                        permission_mode: "acceptEdits"@,
                        worker_id: prompt.worker_id,
                        request_id: prompt.request.request_id,
                    },
                ),
                ..app
            })
            &&& denies ==> {
                &&& after.permission_prompt is None
                &&& after.input_mode == app.input_mode
                &&& after.workers == app.workers
                &&& after.manager == sent(
                    app,
                    WorkerCommandView::PermissionResponse {
                        id: prompt.worker_id,
                        request_id: prompt.request.request_id,
                        decision: PermissionDecisionView::Deny,
                    },
                )
                &&& after.permission_tracker.contains_key(prompt.request.request_id)
                &&& after.permission_tracker[prompt.request.request_id].worker_name
                    == prompt.worker_name
                &&& after.permission_tracker[prompt.request.request_id].step_name
                    == prompt.request.step_name
            }
            &&& !allows && !denies ==> after.manager == app.manager && after.input_mode
                == app.input_mode && after.permission_prompt is Some
        }),
{
    assert(AVAILABLE_TOOLS@.len() == 8);
}

/// An arrow to the side selects the other answer, and sends nothing.
pub proof fn arrows_select_the_other_answer(
    app: AppView,
    prompt: PermissionPromptStateView,
    key: KeyEvent,
    now: i128,
)
    requires
        app.permission_prompt == Some(prompt),
        key.code == KeyCode::Left || key.code == KeyCode::Right,
        !key.modifiers.control && !key.modifiers.alt,
    ensures
        app.after_key(key, now).permission_prompt matches Some(p) && {
            &&& p.request == prompt.request
            &&& p.worker_id == prompt.worker_id
            &&& prompt.selection is Allow ==> p.selection is Deny
            &&& prompt.selection is Deny ==> p.selection is Allow
        },
        app.after_key(key, now).manager == app.manager,
{
}

/// How many of the first `n` tools are checked.
pub open spec fn checked_before(tools: Seq<bool>, n: int) -> int
    decreases n,
{
    if n <= 0 {
        0
    } else {
        checked_before(tools, n - 1) + if tools[n - 1] {
            1int
        } else {
            0int
        }
    }
}

proof fn lemma_checked(tools: Seq<bool>, i: int, n: int)
    requires
        0 <= i <= n <= tools.len(),
    ensures
        event_handler::checked_tools(tools, n).len() == checked_before(tools, n),
        0 <= checked_before(tools, i) <= checked_before(tools, n),
        i < n && tools[i] ==> {
            &&& checked_before(tools, i) < checked_before(tools, n)
            &&& event_handler::checked_tools(tools, n)[checked_before(tools, i)]
                == AVAILABLE_TOOLS@[i].0@
        },
    decreases n,
{
    if n > 0 {
        if i < n {
            lemma_checked(tools, i, n - 1);
        } else {
            lemma_checked(tools, n - 1, n - 1);
        }
    }
}

/// While a prompt is typed, a character goes where the place is, Ctrl+J puts in a newline and Tab
/// itself; what else was chosen for the prompt stays as it is, and nothing is sent.
pub proof fn prompts_are_typed(
    app: AppView,
    buffer: Seq<char>,
    cursor: usize,
    force_new: bool,
    permission_mode: Option<Seq<char>>,
    worker_name: Option<Seq<char>>,
    key: KeyEvent,
    c: char,
    now: i128,
)
    requires
        cursor <= buffer.len() < usize::MAX,
        asks(
            app,
            InputModeView::FreePrompt { buffer, cursor, force_new, permission_mode, worker_name },
        ),
        ({
            ||| key.code == KeyCode::Char(c) && !key.modifiers.control && !key.modifiers.alt
            ||| key.code == KeyCode::Char('j') && key.modifiers.control && c == '\n'
            ||| key.code == KeyCode::Tab && c == '\t'
        }),
    ensures
        app.after_key(key, now) == (AppView {
            input_mode: Some(
                InputModeView::FreePrompt {
                    buffer: buffer.take(cursor as int) + seq![c] + buffer.skip(cursor as int),
                    cursor: (cursor + 1) as usize,
                    force_new,
                    permission_mode,
                    worker_name,
                },
            ),
            ..app
        }),
{
    assert(buffer.insert(cursor as int, c) =~= buffer.take(cursor as int) + seq![c] + buffer.skip(
        cursor as int,
    ));
}

/// Ctrl+P leads from no permission mode to planning, to accepting edits and back, and leaves the
/// prompt as it is.
pub proof fn permission_modes_of_prompts_take_turns(
    app: AppView,
    buffer: Seq<char>,
    cursor: usize,
    force_new: bool,
    permission_mode: Option<Seq<char>>,
    worker_name: Option<Seq<char>>,
    key: KeyEvent,
    now: i128,
)
    requires
        asks(
            app,
            InputModeView::FreePrompt { buffer, cursor, force_new, permission_mode, worker_name },
        ),
        key.code == KeyCode::Char('p'),
        key.modifiers.control,
    ensures
        ({
            let next = match app.after_key(key, now).input_mode {
                Some(
                    InputModeView::FreePrompt {
                        buffer: b,
                        cursor: p,
                        force_new: f,
                        permission_mode: m,
                        worker_name: w,
                    },
                ) => if b == buffer && p == cursor && f == force_new && w == worker_name {
                    Some(m)
                } else {
                    None
                },
                _ => None,
            };
            &&& next is Some
            &&& permission_mode is None ==> next == Some(Some("plan"@))
            &&& permission_mode == Some("plan"@) ==> next == Some(Some("acceptEdits"@))
            &&& permission_mode == Some("acceptEdits"@) ==> next == Some(None::<Seq<char>>)
        }),
        app.after_key(key, now).manager == app.manager,
{
    event_handler::modes_go_round();
    reveal_strlit("plan");
    reveal_strlit("acceptEdits");
    assert("plan"@.len() != "acceptEdits"@.len());
}

/// While a name is typed, for a new worker or for one that is there, a character goes where the
/// place is, and nothing is sent.
pub proof fn names_are_typed(
    app: AppView,
    buffer: Seq<char>,
    cursor: usize,
    workflow_name: Option<Seq<char>>,
    next_action: NameInputNextAction,
    worker_id: WorkerId,
    key: KeyEvent,
    c: char,
    now: i128,
)
    requires
        cursor <= buffer.len() < usize::MAX,
        app.permission_prompt is None,
        key.code == KeyCode::Char(c),
        !key.modifiers.control,
        !key.modifiers.alt,
    ensures
        ({
            let after = buffer.take(cursor as int) + seq![c] + buffer.skip(cursor as int);
            let place = (cursor + 1) as usize;
            &&& app.input_mode == Some(
                InputModeView::NameInput { buffer, cursor, workflow_name, next_action },
            ) ==> app.after_key(key, now) == (AppView {
                input_mode: Some(
                    InputModeView::NameInput {
                        buffer: after,
                        cursor: place,
                        workflow_name,
                        next_action,
                    },
                ),
                ..app
            })
            &&& app.input_mode == Some(InputModeView::RenameWorker { buffer, cursor, worker_id })
                ==> app.after_key(key, now) == (AppView {
                input_mode: Some(
                    InputModeView::RenameWorker { buffer: after, cursor: place, worker_id },
                ),
                ..app
            })
        }),
{
    assert(buffer.insert(cursor as int, c) =~= buffer.take(cursor as int) + seq![c] + buffer.skip(
        cursor as int,
    ));
}

/// Up and down lead through a list one place at a time, and stop at its ends.
pub proof fn lists_are_walked_through(
    app: AppView,
    worktrees: Seq<ExistingWorktreeView>,
    selected: usize,
    key: KeyEvent,
    now: i128,
)
    requires
        selected < worktrees.len() <= usize::MAX,
        asks(app, InputModeView::WorktreeSelection { worktrees, selected }),
        key.code == KeyCode::Up || key.code == KeyCode::Down || key.code == KeyCode::Char('j')
            || key.code == KeyCode::Char('k'),
    ensures
        ({
            let down = key.code == KeyCode::Down || key.code == KeyCode::Char('j');
            app.after_key(key, now) == (AppView {
                input_mode: Some(
                    InputModeView::WorktreeSelection {
                        worktrees,
                        selected: if down && selected + 1 < worktrees.len() {
                            (selected + 1) as usize
                        } else if !down && selected > 0 {
                            (selected - 1) as usize
                        } else {
                            selected
                        },
                    },
                ),
                ..app
            })
        }),
{
}

/// The ways to a new worker, and the tools, are walked through in the same way.
pub proof fn ways_and_tools_are_walked_through(
    app: AppView,
    selected: usize,
    tools: Seq<bool>,
    permission_mode: Seq<char>,
    worker_id: WorkerId,
    request_id: u64,
    key: KeyEvent,
    now: i128,
)
    requires
        app.permission_prompt is None,
        tools.len() < usize::MAX,
        key.code == KeyCode::Up || key.code == KeyCode::Down,
    ensures
        ({
            let down = key.code == KeyCode::Down;
            let after = app.after_key(key, now).input_mode;
            &&& selected <= 2 && app.input_mode == Some(
                InputModeView::CreateWorkerSelection { selected },
            ) ==> match after {
                Some(InputModeView::CreateWorkerSelection { selected: s }) => {
                    &&& down && selected < 2 ==> s == selected + 1
                    &&& !down && selected > 0 ==> s == selected - 1
                    &&& down && selected == 2 || !down && selected == 0 ==> s == selected
                },
                _ => false,
            }
            &&& selected <= tools.len() && app.input_mode == Some(
                InputModeView::ToolSelection {
                    tools,
                    selected_idx: selected,
                    permission_mode,
                    worker_id,
                    request_id,
                },
            ) ==> match after {
                Some(InputModeView::ToolSelection { tools: t, selected_idx: s, .. }) => {
                    &&& t == tools
                    &&& down && selected < tools.len() ==> s == selected + 1
                    &&& !down && selected > 0 ==> s == selected - 1
                    &&& down && selected == tools.len() || !down && selected == 0 ==> s == selected
                },
                _ => false,
            }
        }),
        app.input_mode matches Some(InputModeView::CreateWorkerSelection { .. })
            ==> app.after_key(key, now).manager == app.manager,
{
}

/// Nothing is sent where the manager no longer takes anything; what was not sent is told.
pub proof fn what_is_not_sent_is_told(app: AppView, i: int, key: KeyEvent, now: i128)
    requires
        app.wf(),
        idle(app),
        selects(app, i),
        !app.manager.open,
        app.workers[i].snapshot.status != WorkerStatus::Archived,
        key.code == KeyCode::Char('d') || key.code == KeyCode::Char('r'),
    ensures
        ({
            let after = app.after_key(key, now);
            let id = text::decimal(app.workers[i].snapshot.id.0 as nat);
            &&& after.manager == app.manager
            &&& after.workers == app.workers
            &&& after.effects == if key.code == KeyCode::Char('d') {
                told(
                    app,
                    "ワーカー削除に失敗しました ("@ + ("WorkerId("@ + id + ")"@) + "): "@ + (
                    "failed to enqueue "@ + "worker deletion"@ + ": sending on a closed channel"@),
                    now,
                )
            } else {
                told(
                    app,
                    "ワーカー再起動に失敗しました ("@ + ("WorkerId("@ + id + ")"@) + "): "@ + (
                    "failed to enqueue "@ + "worker restart"@ + ": sending on a closed channel"@),
                    now,
                )
            }
        }),
{
    the_selected_worker_is_on_the_screen(app, i);
    lemma_found(app, i);
}

/// At the start there is no worker, nothing is asked and nothing is on its way; the action log
/// shows what was kept of it, in its order, and the default workflow is in use, or the first one
/// where none of that name is there.
pub proof fn the_start_shows_the_log_and_uses_the_default(
    repo_root: Seq<char>,
    product: ProductView,
    config: ConfigView,
    history: Seq<ActionLogEntryView>,
    k: int,
)
    requires
        0 < config.workflows.len() <= usize::MAX,
    ensures
        ({
            let start = app::initial_app(repo_root, product, config, history);
            let used = start.workflows[start.selected_workflow_idx as int];
            &&& start.workers.len() == 0
            &&& idle(start)
            &&& start.manager.queue.len() == 0
            &&& start.effects.len() == 0
            &&& start.status_filter is None
            &&& start.repo_root == repo_root
            &&& start.workflows == config.workflows
            &&& start.log_messages.len() == history.len()
            &&& 0 <= k < history.len() ==> start.log_messages[k] == match history[k].worker {
                Some(name) => "["@ + history[k].timestamp + "]["@ + name + "] "@
                    + history[k].message,
                None => "["@ + history[k].timestamp + "] "@ + history[k].message,
            }
            &&& config.default_workflow is None ==> start.selected_workflow_idx == 0
            &&& match config.default_workflow {
                Some(name) => if exists|j: int|
                    0 <= j < config.workflows.len() && (#[trigger] config.workflows[j]).name == name
                {
                    used.name == name
                } else {
                    start.selected_workflow_idx == 0
                },
                None => true,
            }
        }),
{
    let names = config::workflow_names(config.workflows);
    match config.default_workflow {
        Some(name) => {
            model::first_index_is_first(names, name);
            if exists|j: int|
                0 <= j < config.workflows.len() && (#[trigger] config.workflows[j]).name == name {
                let j = choose|j: int|
                    0 <= j < config.workflows.len() && (#[trigger] config.workflows[j]).name == name;
                assert(names[j] == name);
            } else if let Some(i) = model::first_index(names, name) {
                assert(names[i] == name);
                assert(config.workflows[i].name == name);
            }
        },
        None => {},
    }
}

/// The tools that are checked are granted to the worker that asked, in the order of the list, and
/// no others; with none checked none are named. Esc denies.
pub proof fn checked_tools_are_granted(
    app: AppView,
    tools: Seq<bool>,
    selected_idx: usize,
    permission_mode: Seq<char>,
    worker_id: WorkerId,
    request_id: u64,
    key: KeyEvent,
    now: i128,
)
    requires
        asks(
            app,
            InputModeView::ToolSelection {
                tools,
                selected_idx,
                permission_mode,
                worker_id,
                request_id,
            },
        ),
        key.code == KeyCode::Enter || key.code == KeyCode::Esc,
        app.manager.open,
    ensures
        ({
            let after = app.after_key(key, now);
            let queue = after.manager.queue;
            &&& after.input_mode is None
            &&& after.workers == app.workers
            &&& queue.len() == app.manager.queue.len() + 1
            &&& queue.drop_last() == app.manager.queue
            &&& key.code == KeyCode::Esc ==> queue.last()
                == WorkerCommandView::PermissionResponse {
                id: worker_id,
                request_id,
                decision: PermissionDecisionView::Deny,
            }
            &&& key.code == KeyCode::Enter ==> match queue.last() {
                WorkerCommandView::PermissionResponse {
                    id,
                    request_id: r,
                    decision: PermissionDecisionView::Allow {
                        permission_mode: mode,
                        allowed_tools,
                    },
                } => {
                    &&& id == worker_id
                    &&& r == request_id
                    &&& mode == Some(permission_mode)
                    &&& match allowed_tools {
                        None => forall|i: int| 0 <= i < tools.len() ==> !#[trigger] tools[i],
                        Some(names) => {
                            &&& names.len() == checked_before(tools, tools.len() as int)
                            &&& names.len() > 0
                            &&& forall|i: int|
                                0 <= i < tools.len() && #[trigger] tools[i] ==> names[checked_before(
                                    tools,
                                    i,
                                )] == AVAILABLE_TOOLS@[i].0@
                        },
                    }
                },
                _ => false,
            }
        }),
{
    let n = tools.len() as int;
    let after = app.after_key(key, now);
    lemma_checked(tools, n, n);
    assert(after.manager.queue.drop_last() =~= app.manager.queue);
    assert forall|i: int| 0 <= i < n && #[trigger] tools[i] implies checked_before(tools, i)
        < checked_before(tools, n) && event_handler::checked_tools(tools, n)[checked_before(
        tools,
        i,
    )] == AVAILABLE_TOOLS@[i].0@ by {
        lemma_checked(tools, i, n);
    }
    if key.code == KeyCode::Enter {
        let decision = event_handler::grant(tools, permission_mode);
        assert(after.manager.queue == app.manager.queue.push(
            WorkerCommandView::PermissionResponse { id: worker_id, request_id, decision },
        ));
        assert(after.manager.queue.last() == WorkerCommandView::PermissionResponse {
            id: worker_id,
            request_id,
            decision,
        });
        if checked_before(tools, n) == 0 {
            assert forall|i: int| 0 <= i < n implies !#[trigger] tools[i] by {
                if tools[i] {
                    lemma_checked(tools, i, n);
                }
            }
        }
    }
}

/// Space checks the selected tool, or no longer checks it; behind the last tool it changes what is
/// granted without being asked. Nothing else changes, and nothing is sent.
pub proof fn space_checks_the_selected_tool(
    app: AppView,
    tools: Seq<bool>,
    selected_idx: usize,
    permission_mode: Seq<char>,
    worker_id: WorkerId,
    request_id: u64,
    key: KeyEvent,
    now: i128,
)
    requires
        asks(
            app,
            InputModeView::ToolSelection {
                tools,
                selected_idx,
                permission_mode,
                worker_id,
                request_id,
            },
        ),
        key.code == KeyCode::Char(' '),
    ensures
        match app.after_key(key, now).input_mode {
            Some(
                InputModeView::ToolSelection {
                    tools: t,
                    selected_idx: s,
                    permission_mode: m,
                    worker_id: w,
                    request_id: r,
                },
            ) => {
                &&& s == selected_idx && w == worker_id && r == request_id
                &&& t.len() == tools.len()
                &&& forall|i: int|
                    0 <= i < tools.len() ==> (#[trigger] t[i] != tools[i] <==> i == selected_idx)
                &&& selected_idx < tools.len() ==> m == permission_mode
                &&& selected_idx >= tools.len() ==> m == if permission_mode == "acceptEdits"@ {
                    "bypassPermissions"@
                } else {
                    "acceptEdits"@
                }
            },
            _ => false,
        },
        app.after_key(key, now).manager == app.manager,
{
}

/// Between two workers of which the second follows the first on the screen, down and up lead from
/// one to the other.
pub proof fn arrows_lead_to_the_neighbour(
    app: AppView,
    i: int,
    j: int,
    down: KeyEvent,
    up: KeyEvent,
    now: i128,
)
    requires
        app.wf(),
        idle(app),
        !app.show_logs,
        !app.show_session_history,
        0 <= i < j < app.workers.len(),
        app.status_filter is None || app.status_filter == Some(app.workers[j].snapshot.status),
        shown_before(app.workers, app.status_filter, j) == shown_before(
            app.workers,
            app.status_filter,
            i,
        ) + 1,
        down.code == KeyCode::Down || down.code == KeyCode::Char('j'),
        up.code == KeyCode::Up || up.code == KeyCode::Char('k'),
    ensures
        selects(app, i) ==> selects(app.after_key(down, now), j),
        selects(app, i) ==> app.after_key(down, now).workers == app.workers,
        selects(app, j) && (app.status_filter is None || app.status_filter == Some(
            app.workers[i].snapshot.status,
        )) ==> selects(app.after_key(up, now), i),
{
    let n = app.workers.len() as int;
    lemma_visible_places(app.workers, app.status_filter, j, n);
    lemma_visible_places(app.workers, app.status_filter, i, n);
}

/// Home leads to the first worker on the screen, End to the last one, and up and down stop there.
pub proof fn the_ends_of_the_screen_are_reached(app: AppView, i: int, key: KeyEvent, now: i128)
    requires
        app.wf(),
        idle(app),
        !app.show_logs,
        !app.show_session_history,
        0 <= i < app.workers.len(),
        app.status_filter is None || app.status_filter == Some(app.workers[i].snapshot.status),
    ensures
        shown_before(app.workers, app.status_filter, i) == 0 && key.code == KeyCode::Home
            ==> selects(app.after_key(key, now), i),
        shown_before(app.workers, app.status_filter, i) == 0 && selects(app, i) && key.code
            == KeyCode::Up ==> selects(app.after_key(key, now), i),
        shown_before(app.workers, app.status_filter, app.workers.len() as int) == shown_before(
            app.workers,
            app.status_filter,
            i,
        ) + 1 && (key.code == KeyCode::End || key.code == KeyCode::Down && selects(app, i))
            ==> selects(app.after_key(key, now), i),
{
    lemma_visible_places(app.workers, app.status_filter, i, app.workers.len() as int);
}

/// The filter goes from all workers to those that run, to those that pause, to those that failed,
/// to those that are idle, to those that are archived, and back; the first one that it lets
/// through is selected.
pub proof fn filters_show_one_status(app: AppView, i: int, key: KeyEvent, now: i128)
    requires
        app.wf(),
        idle(app),
        key.code == KeyCode::Char('a'),
    ensures
        ({
            let after = app.after_key(key, now);
            &&& after.status_filter == match app.status_filter {
                None => Some(WorkerStatus::Running),
                Some(WorkerStatus::Running) => Some(WorkerStatus::Paused),
                Some(WorkerStatus::Paused) => Some(WorkerStatus::Failed),
                Some(WorkerStatus::Failed) => Some(WorkerStatus::Idle),
                Some(WorkerStatus::Idle) => Some(WorkerStatus::Archived),
                Some(WorkerStatus::Archived) => None,
            }
            &&& after.workers == app.workers
            &&& after.manager == app.manager
            &&& 0 <= i < app.workers.len() && shown_before(app.workers, after.status_filter, i) == 0
                && (after.status_filter is None || after.status_filter == Some(
                app.workers[i].snapshot.status,
            )) ==> selects(after, i)
        }),
{
    let after = app.after_key(key, now);
    if 0 <= i < app.workers.len() {
        lemma_visible_places(app.workers, after.status_filter, i, app.workers.len() as int);
    }
}

/// The next workflow is used from the key on, the first one behind the last one.
pub proof fn the_next_workflow_is_used(app: AppView, key: KeyEvent, now: i128)
    requires
        app.wf(),
        idle(app),
        key.code == KeyCode::Char('w'),
    ensures
        ({
            let after = app.after_key(key, now);
            &&& after.workflows == app.workflows
            &&& app.selected_workflow_idx + 1 < app.workflows.len()
                ==> after.selected_workflow_idx == app.selected_workflow_idx + 1
            &&& app.selected_workflow_idx + 1 == app.workflows.len()
                ==> after.selected_workflow_idx == 0
            &&& after.workflow_name() == app.workflows[after.selected_workflow_idx as int].name
            &&& after.manager == app.manager
        }),
{
    let n = app.workflows.len() as int;
    let k = app.selected_workflow_idx as int;
    if k + 1 < n {
        vstd::arithmetic::div_mod::lemma_small_mod((k + 1) as nat, n as nat);
    } else {
        vstd::arithmetic::div_mod::lemma_mod_self_0(n);
    }
}

/// The log opens on its overview, at the start; once more, and it is closed again.
pub proof fn logs_open_and_close(app: AppView, key: KeyEvent, now: i128)
    requires
        idle(app),
        key.code == KeyCode::Char('l'),
    ensures
        app.after_key(key, now).show_logs != app.show_logs,
        !app.show_logs ==> app.after_key(key, now) == (AppView {
            show_logs: true,
            log_view_mode: LogViewMode::Overview,
            log_scroll: 0,
            selected_step: 0,
            ..app
        }),
        app.after_key(key, now).after_key(key, now).show_logs == app.show_logs,
{
}

/// The sessions open at the first one; once more, and they are closed again.
pub proof fn sessions_open_and_close(app: AppView, key: KeyEvent, now: i128)
    requires
        idle(app),
        key.code == KeyCode::Char('s'),
    ensures
        !app.show_session_history ==> app.after_key(key, now) == (AppView {
            show_session_history: true,
            session_history_scroll: 0,
            selected_session: 0,
            ..app
        }),
        app.show_session_history ==> app.after_key(key, now) == (AppView {
            show_session_history: false,
            ..app
        }),
{
}

/// Help opens and closes, and nothing else changes.
pub proof fn help_opens_and_closes(app: AppView, key: KeyEvent, now: i128)
    requires
        idle(app),
        key.code == KeyCode::Char('h'),
    ensures
        app.after_key(key, now) == (AppView { show_help: !app.show_help, ..app }),
{
}

/// The line that a log is scrolled to is one of its lines, and at the last one it scrolls by
/// itself. Up leads one line back and down one on, a page ten; going back stops the log.
pub proof fn logs_scroll_by_lines_and_pages(app: AppView, key: KeyEvent, now: i128)
    requires
        app.wf(),
        idle(app),
        app.show_logs,
        !app.show_session_history,
        app.log_view_mode == LogViewMode::Raw,
        app.log_messages.len() > 0,
        app.log_scroll < app.log_messages.len(),
    ensures
        ({
            let after = app.after_key(key, now);
            let last = app.log_messages.len() - 1;
            let by = if key.code == KeyCode::PageUp || key.code == KeyCode::PageDown {
                10int
            } else {
                1int
            };
            let back = key.code == KeyCode::Up || key.code == KeyCode::PageUp;
            let on = key.code == KeyCode::Down || key.code == KeyCode::PageDown;
            &&& back ==> !after.auto_scroll_logs
            &&& back && app.log_scroll >= by ==> after.log_scroll == app.log_scroll - by
            &&& back && app.log_scroll < by ==> after.log_scroll == 0
            &&& on && app.log_scroll + by <= last ==> after.log_scroll == app.log_scroll + by
            &&& on && app.log_scroll + by > last ==> after.log_scroll == last
            &&& on ==> (after.auto_scroll_logs <==> app.auto_scroll_logs || after.log_scroll
                == last)
            &&& key.code == KeyCode::Home ==> after.log_scroll == 0 && !after.auto_scroll_logs
            &&& key.code == KeyCode::End ==> after.log_scroll == last && after.auto_scroll_logs
            &&& back || on || key.code == KeyCode::Home || key.code == KeyCode::End
                ==> after.log_messages == app.log_messages && after.selected == app.selected
        }),
{
}

/// Of the action log its last four lines stay, in their order, with a line that says so behind
/// them.
pub proof fn the_latest_lines_stay(app: AppView, key: KeyEvent, now: i128)
    requires
        app.wf(),
        idle(app),
        key.code == KeyCode::Char('C'),
        key.modifiers.shift,
    ensures
        ({
            let after = app.after_key(key, now).log_messages;
            let before = app.log_messages;
            let kept = if before.len() < 4 {
                before.len() as int
            } else {
                4
            };
            &&& after.len() == kept + 1
            &&& forall|i: int|
                0 <= i < kept ==> #[trigger] after[i] == before[before.len() - kept + i]
        }),
        app.after_key(key, now).effects == told(app, "アクションログを圧縮しました"@, now),
{
}

/// A line of the action log is shown behind the others, with its time and with the worker that it
/// is about, and the same line is wanted on disk; of what was shown at most the first line goes,
/// and only where the log is full.
pub proof fn the_action_log_tells_what_happened(
    app: AppView,
    worker: Option<Seq<char>>,
    message: Seq<char>,
    now: i128,
)
    requires
        app.log_messages.len() <= app::GLOBAL_LOG_CAPACITY,
    ensures
        ({
            let after = app.logged(worker, message, now);
            let time = clock::timestamp_text(now);
            let before = app.log_messages;
            &&& after.effects == app.effects.push(
                AppEffectView::AppendActionLog(
                    ActionLogEntryView { timestamp: time, message, worker },
                ),
            )
            &&& after.log_messages.last() == match worker {
                Some(name) => "["@ + time + "]["@ + name + "] "@ + message,
                None => "["@ + time + "] "@ + message,
            }
            &&& before.len() < app::GLOBAL_LOG_CAPACITY ==> after.log_messages.drop_last() == before
            &&& before.len() == app::GLOBAL_LOG_CAPACITY ==> after.log_messages.drop_last()
                == before.drop_first()
            &&& after.workers == app.workers
            &&& after.manager == app.manager
        }),
{
    let after = app.logged(worker, message, now);
    if app.log_messages.len() < app::GLOBAL_LOG_CAPACITY {
        assert(after.log_messages.drop_last() =~= app.log_messages);
    } else {
        assert(after.log_messages.drop_last() =~= app.log_messages.drop_first());
    }
}

/// Tab leads from the overview to the detail of a step, to the raw log and back, BackTab the other
/// way; each opens at its start. Enter opens the detail of the selected step, and Esc closes it.
pub proof fn tabs_lead_round(app: AppView, i: int, key: KeyEvent, now: i128)
    requires
        app.wf(),
        idle(app),
        selects(app, i),
        app.show_logs,
        !app.show_session_history,
        app.selected_step < app.workers[i].structured_logs.len() <= usize::MAX,
        key.code == KeyCode::Tab || key.code == KeyCode::BackTab || key.code == KeyCode::Enter
            || key.code == KeyCode::Esc,
    ensures
        ({
            let after = app.after_key(key, now);
            let was = app.log_view_mode;
            let stays = match key.code {
                KeyCode::Enter => was != LogViewMode::Overview,
                KeyCode::Esc => was == LogViewMode::Overview,
                _ => false,
            };
            &&& after.log_view_mode == match key.code {
                KeyCode::Tab => match was {
                    LogViewMode::Overview => LogViewMode::Detail,
                    LogViewMode::Detail => LogViewMode::Raw,
                    LogViewMode::Raw => LogViewMode::Overview,
                },
                KeyCode::BackTab => match was {
                    LogViewMode::Overview => LogViewMode::Raw,
                    LogViewMode::Detail => LogViewMode::Overview,
                    LogViewMode::Raw => LogViewMode::Detail,
                },
                KeyCode::Enter => if was == LogViewMode::Overview {
                    LogViewMode::Detail
                } else {
                    was
                },
                _ => LogViewMode::Overview,
            }
            &&& !stays ==> after.log_scroll == 0
            &&& stays ==> after == app
            &&& after.selected_step == app.selected_step
            &&& after.selected == app.selected
            &&& after.workers == app.workers
            &&& after.manager == app.manager
        }),
{
    the_selected_worker_is_on_the_screen(app, i);
}

/// In the overview up and down lead through the steps of the selected worker, and stop at the
/// first and the last one.
pub proof fn steps_are_walked_through(app: AppView, i: int, key: KeyEvent, now: i128)
    requires
        app.wf(),
        idle(app),
        selects(app, i),
        app.show_logs,
        !app.show_session_history,
        app.log_view_mode == LogViewMode::Overview,
        app.selected_step < app.workers[i].structured_logs.len(),
        key.code == KeyCode::Up || key.code == KeyCode::Down || key.code == KeyCode::Char('j')
            || key.code == KeyCode::Char('k'),
    ensures
        ({
            let down = key.code == KeyCode::Down || key.code == KeyCode::Char('j');
            app.after_key(key, now) == (AppView {
                selected_step: if down && app.selected_step + 1
                    < app.workers[i].structured_logs.len() {
                    (app.selected_step + 1) as usize
                } else if !down && app.selected_step > 0 {
                    (app.selected_step - 1) as usize
                } else {
                    app.selected_step
                },
                ..app
            })
        }),
{
    the_selected_worker_is_on_the_screen(app, i);
}

/// While sessions are shown, `j` and `k` lead through those of the selected worker, and stop at the
/// first and the last one.
pub proof fn sessions_are_walked_through(app: AppView, i: int, key: KeyEvent, now: i128)
    requires
        app.wf(),
        idle(app),
        selects(app, i),
        app.show_session_history,
        app.selected_session < app.workers[i].session_histories.len(),
        key.code == KeyCode::Char('j') || key.code == KeyCode::Char('k'),
    ensures
        ({
            let on = key.code == KeyCode::Char('j');
            app.after_key(key, now) == (AppView {
                selected_session: if on && app.selected_session + 1
                    < app.workers[i].session_histories.len() {
                    (app.selected_session + 1) as usize
                } else if !on && app.selected_session > 0 {
                    (app.selected_session - 1) as usize
                } else {
                    app.selected_session
                },
                ..app
            })
        }),
{
    the_selected_worker_is_on_the_screen(app, i);
}

/// Scrolling by itself is switched on and off, which is told.
pub proof fn automatic_scrolling_is_switched(app: AppView, key: KeyEvent, now: i128)
    requires
        idle(app),
        key.code == KeyCode::Char('A'),
        key.modifiers.shift,
    ensures
        app.after_key(key, now).auto_scroll_logs != app.auto_scroll_logs,
        app.after_key(key, now).effects == told(
            app,
            "ログの自動スクロール: "@ + (if app.after_key(key, now).auto_scroll_logs {
                "ON"@
            } else {
                "OFF"@
            }),
            now,
        ),
        app.after_key(key, now).workers == app.workers,
{
}

/// A grant is remembered, under the name of the worker that asked, until it has gone through.
pub proof fn grants_are_remembered(
    app: AppView,
    tools: Seq<bool>,
    selected_idx: usize,
    permission_mode: Seq<char>,
    i: int,
    request_id: u64,
    key: KeyEvent,
    now: i128,
)
    requires
        app.wf(),
        0 <= i < app.workers.len(),
        asks(
            app,
            InputModeView::ToolSelection {
                tools,
                selected_idx,
                permission_mode,
                worker_id: app.workers[i].snapshot.id,
                request_id,
            },
        ),
        key.code == KeyCode::Enter,
        app.manager.open,
    ensures
        ({
            let tracker = app.after_key(key, now).permission_tracker;
            &&& tracker.contains_key(request_id)
            &&& tracker[request_id].worker_name == app.workers[i].snapshot.name
            &&& tracker[request_id].step_name == "Tool selection"@
        }),
{
    lemma_found(app, i);
    lemma_found(app.in_mode(None), i);
}

/// A worker that is not sent what it was asked, because nothing takes it any more, is told of under
/// its name; the request is closed.
pub proof fn answers_that_are_not_sent_are_told(
    app: AppView,
    prompt: PermissionPromptStateView,
    key: KeyEvent,
    now: i128,
)
    requires
        app.permission_prompt == Some(prompt),
        !app.manager.open,
        key.code == KeyCode::Esc,
    ensures
        ({
            let after = app.after_key(key, now);
            &&& after.permission_prompt is None
            &&& after.manager == app.manager
            &&& after.effects == app.effects.push(
                AppEffectView::AppendActionLog(
                    ActionLogEntryView {
                        timestamp: clock::timestamp_text(now),
                        message: "権限応答の送信に失敗しました: "@ + ("failed to enqueue "@
                            + "permission response"@ + ": sending on a closed channel"@),
                        worker: Some(prompt.worker_name),
                    },
                ),
            )
        }),
{
}

/// What is sent is told with it: a new worker by its name, a prompt with its mode and its text,
/// a new name by itself.
pub proof fn what_is_sent_is_told(
    app: AppView,
    buffer: Seq<char>,
    cursor: usize,
    workflow_name: Option<Seq<char>>,
    permission_mode: Option<Seq<char>>,
    worker_name: Option<Seq<char>>,
    worker_id: WorkerId,
    key: KeyEvent,
    now: i128,
)
    requires
        app.permission_prompt is None,
        app.manager.open,
        key.code == KeyCode::Enter,
        !text_laws::all_space(buffer),
    ensures
        ({
            let after = app.after_key(key, now);
            let said = text::trimmed(buffer);
            &&& app.input_mode == Some(
                InputModeView::NameInput {
                    buffer,
                    cursor,
                    workflow_name,
                    next_action: NameInputNextAction::CreateWithWorkflow,
                },
            ) ==> after.effects == told(app, "ワーカーを作成しました: "@ + said, now)
            &&& app.input_mode == Some(InputModeView::RenameWorker { buffer, cursor, worker_id })
                ==> after.effects == told(app, "ワーカー名を変更しました: "@ + said, now)
            &&& app.input_mode == Some(
                InputModeView::FreePrompt {
                    buffer,
                    cursor,
                    force_new: true,
                    permission_mode,
                    worker_name,
                },
            ) ==> after.effects == told(
                app,
                "自由指示を送信しました ("@ + helpers::mode_label(permission_mode) + "): "@ + said,
                now,
            )
        }),
{
    text_laws::blank_texts_are_space(buffer);
}

} // verus!
