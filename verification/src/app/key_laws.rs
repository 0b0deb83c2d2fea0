//! What holds of every key on the dashboard.
use crate::app::actions;
use crate::app::event_handler;
use crate::app::types::{InputModeView, KeyCode, KeyEvent, PermissionPromptStateView};
use crate::app::typing;
use crate::app::{self, AppView};
use crate::worker::{PermissionDecisionView, WorkerCommandView, WorkerId};
use vstd::prelude::*;

verus! {

/// A prompt leaves everything selected as it is.
proof fn lemma_submitted_keeps_wf(
    app: AppView,
    prompt: Seq<char>,
    force_new: bool,
    mode: Option<Seq<char>>,
    worker_name: Option<Seq<char>>,
    now: i128,
)
    requires
        app.wf(),
    ensures
        app.submitted(prompt, force_new, mode, worker_name, now).wf(),
{
}

/// A key in an input mode leads to an input mode that points at something that is there.
proof fn lemma_mode_keys_keep_wf(app: AppView, mode: InputModeView, key: KeyEvent, now: i128)
    requires
        app.wf(),
        app::mode_wf(mode),
    ensures
        app.mode_key(mode, key, now).wf(),
{
    match mode {
        InputModeView::FreePrompt { buffer, cursor, force_new, permission_mode, worker_name } => {
            assert(app.in_mode(None).wf());
            lemma_submitted_keeps_wf(
                app.in_mode(None),
                buffer,
                force_new,
                permission_mode,
                worker_name,
                now,
            );
            typing::typing_stays_in_text(buffer, cursor, key);
            assert(app.free_prompt_key(
                buffer,
                cursor,
                force_new,
                permission_mode,
                worker_name,
                key,
                now,
            ).wf());
        },
        InputModeView::CreateWorkerSelection { selected } => {
            assert(app.create_key(selected, key).wf());
        },
        InputModeView::WorktreeSelection { worktrees, selected } => {
            assert(app.worktree_key(worktrees, selected, key, now).wf());
        },
        InputModeView::ToolSelection {
            tools,
            selected_idx,
            permission_mode,
            worker_id,
            request_id,
        } => {
            assert(app.tool_key(
                tools,
                selected_idx,
                permission_mode,
                worker_id,
                request_id,
                key,
                now,
            ).wf());
        },
        InputModeView::NameInput { buffer, cursor, workflow_name, next_action } => {
            typing::typing_stays_in_text(buffer, cursor, key);
            assert(app.name_key(buffer, cursor, workflow_name, next_action, key, now).wf());
        },
        InputModeView::RenameWorker { buffer, cursor, worker_id } => {
            typing::typing_stays_in_text(buffer, cursor, key);
            assert(app.rename_key(buffer, cursor, worker_id, key, now).wf());
        },
    }
}

/// A key that moves the selection keeps it on what is there.
proof fn lemma_moves_keep_wf(app: AppView)
    requires
        app.wf(),
        forall|i: int|
            0 <= i < app.workers.len() ==> (#[trigger] app.workers[i]).structured_logs.len()
                <= usize::MAX,
    ensures
        app.up().wf(),
        app.down().wf(),
        app.back().wf(),
        app.moved_to(0).wf(),
        app.selected_last().wf(),
        app.tab_switched(actions::next_tab(app.log_view_mode)).wf(),
        app.tab_switched(actions::previous_tab(app.log_view_mode)).wf(),
        app.entering_detail().wf(),
{
    app::visible_are_workers(app.workers, app.status_filter, app.workers.len() as int);
}

/// A character that is a command keeps everything selected on what is there.
#[verifier::rlimit(40)]
proof fn lemma_chars_keep_wf(app: AppView, c: char, shift: bool, now: i128)
    requires
        app.wf(),
        forall|i: int|
            0 <= i < app.workers.len() ==> (#[trigger] app.workers[i]).structured_logs.len()
                <= usize::MAX,
    ensures
        app.char_key(c, shift, now).wf(),
{
    lemma_moves_keep_wf(app);
    if c == 'w' {
        actions::workflows_go_round(app, now);
    }
}

/// Whatever key is pressed, everything that is selected afterwards is there.
pub proof fn keys_keep_wf(app: AppView, key: KeyEvent, now: i128)
    requires
        app.wf(),
        forall|i: int|
            0 <= i < app.workers.len() ==> (#[trigger] app.workers[i]).structured_logs.len()
                <= usize::MAX,
    ensures
        app.after_key(key, now).wf(),
{
    match app.permission_prompt {
        Some(prompt) => {},
        None => match app.input_mode {
            Some(mode) => lemma_mode_keys_keep_wf(app, mode, key, now),
            None => {
                lemma_moves_keep_wf(app);
                match key.code {
                    KeyCode::Char(c) => lemma_chars_keep_wf(app, c, key.modifiers.shift, now),
                    _ => {},
                }
            },
        },
    }
}

/// While session histories are shown, no key ends the program, and `q` leads back to what was
/// shown before.
pub proof fn histories_are_closed_first(app: AppView, key: KeyEvent, now: i128)
    requires
        app.show_session_history,
    ensures
        !app.quits(key),
        app.permission_prompt is None && app.input_mode is None && key.code == KeyCode::Char('q')
            ==> app.after_key(key, now) == (AppView { show_session_history: false, ..app }),
{
}

/// A key closes a permission request that is shown only by answering it or by offering the tools
/// for it.
pub proof fn prompts_are_answered(
    app: AppView,
    prompt: PermissionPromptStateView,
    key: KeyEvent,
    now: i128,
)
    requires
        app.permission_prompt == Some(prompt),
        app.manager.open,
    ensures
        ({
            let after = app.after_key(key, now);
            let id = prompt.worker_id;
            let request_id = prompt.request.request_id;
            ||| (after.permission_prompt matches Some(p) && p.request == prompt.request)
            ||| (after.input_mode matches Some(
                InputModeView::ToolSelection { worker_id: w, request_id: r, .. },
            ) && w == id && r == request_id)
            ||| after.manager.queue == app.manager.queue.push(
                WorkerCommandView::PermissionResponse {
                    id,
                    request_id,
                    decision: PermissionDecisionView::Deny,
                },
            )
        }),
{
}

/// A key closes the list of tools only by answering the request that it is about.
pub proof fn tool_lists_are_answered(
    app: AppView,
    tools: Seq<bool>,
    selected_idx: usize,
    permission_mode: Seq<char>,
    worker_id: WorkerId,
    request_id: u64,
    key: KeyEvent,
    now: i128,
)
    requires
        app.permission_prompt is None,
        app.input_mode == Some(
            InputModeView::ToolSelection {
                tools,
                selected_idx,
                permission_mode,
                worker_id,
                request_id,
            },
        ),
        app.manager.open,
    ensures
        ({
            let after = app.after_key(key, now);
            ||| (after.input_mode matches Some(
                InputModeView::ToolSelection { worker_id: w, request_id: r, .. },
            ) && w == worker_id && r == request_id && after.manager == app.manager)
            ||| exists|decision: PermissionDecisionView|
                after.input_mode is None && after.manager.queue == #[trigger] app.manager.queue.push(
                    WorkerCommandView::PermissionResponse { id: worker_id, request_id, decision },
                )
        }),
{
    let mode = app.input_mode->0;
    let after = app.after_key(key, now);
    assert(after == app.mode_key(mode, key, now));
    if key.code == KeyCode::Esc {
        let decision = PermissionDecisionView::Deny;
        assert(after.manager.queue == app.manager.queue.push(
            WorkerCommandView::PermissionResponse { id: worker_id, request_id, decision },
        ));
    } else if key.code == KeyCode::Enter {
        let decision = event_handler::grant(tools, permission_mode);
        assert(after.manager.queue == app.manager.queue.push(
            WorkerCommandView::PermissionResponse { id: worker_id, request_id, decision },
        ));
    }
}

/// What a key does in an input mode does not depend on the mode being kept meanwhile.
#[verifier::rlimit(40)]
pub proof fn lemma_mode_key_of_closed(app: AppView, mode: InputModeView, key: KeyEvent, now: i128)
    ensures
        app.in_mode(None).mode_key(mode, key, now) == app.mode_key(mode, key, now),
{
    assert(app.in_mode(None).in_mode(None) == app.in_mode(None));
}

} // verus!
