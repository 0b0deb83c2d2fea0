//! What keys do to the dashboard.
use crate::app::actions;
use crate::app::key_laws;
use crate::app::types::{
    AppEffect, AppEffectView, InputMode, InputModeView, KeyCode, KeyEvent, NameInputNextAction,
    PermissionPromptStateView, PermissionTrackerEntry, PermissionTrackerEntryView,
};
use crate::app::typing::{self, put_char, type_key};
use crate::app::{self, App, AppView};
use crate::text::{self, cat2, same, trim, usize_text};
use crate::ui::types::{tool_def, LogViewMode, AVAILABLE_TOOLS};
use crate::worker::{
    ExistingWorktree, ExistingWorktreeView, HandleError, PermissionDecision,
    PermissionDecisionView, WorkerCommandView, WorkerId, WorkerStatus,
};
use vstd::prelude::*;

verus! {

/// The answer that a key gives to a permission request, if it gives one.
pub open spec fn answer(prompt: PermissionPromptStateView, key: KeyEvent) -> Option<
    PermissionDecisionView,
> {
    match key.code {
        KeyCode::Char(c) => if c == 'y' && key.modifiers.none() {
            Some(PermissionDecisionView::allow())
        } else if c == 'n' && key.modifiers.none() {
            Some(PermissionDecisionView::Deny)
        } else {
            None
        },
        KeyCode::Enter => Some(prompt.selection),
        KeyCode::Esc => Some(PermissionDecisionView::Deny),
        _ => None,
    }
}

/// Whether a key selects the other answer to a permission request.
pub open spec fn turns(key: KeyEvent) -> bool {
    key.modifiers.typing() && (key.code == KeyCode::Left || key.code == KeyCode::Right || key.code
        == KeyCode::Char('h') || key.code == KeyCode::Char('l'))
}

/// Whether a key moves up.
pub open spec fn moves_up(code: KeyCode) -> bool {
    code == KeyCode::Up || code == KeyCode::Char('k')
}

/// Whether a key moves down.
pub open spec fn moves_down(code: KeyCode) -> bool {
    code == KeyCode::Down || code == KeyCode::Char('j')
}

/// A place after a key that moves up or down among the places up to `last`.
pub open spec fn moved(place: usize, last: int, code: KeyCode) -> usize {
    if moves_up(code) {
        if place > 0 {
            (place - 1) as usize
        } else {
            0
        }
    } else if moves_down(code) {
        if place + 1 <= last {
            (place + 1) as usize
        } else {
            last as usize
        }
    } else {
        place
    }
}

/// A prompt that is being typed and the place in it, after a key: Ctrl+J puts in a newline, and
/// Tab itself.
pub open spec fn prompt_typed(buffer: Seq<char>, cursor: usize, key: KeyEvent) -> (
    Seq<char>,
    usize,
) {
    if key.code == KeyCode::Tab {
        typing::put(buffer, cursor, '\t')
    } else if key.code == KeyCode::Char('j') && key.modifiers.control {
        typing::put(buffer, cursor, '\n')
    } else {
        typing::typed(buffer, cursor, key)
    }
}

/// The permission mode that follows a permission mode of a prompt.
pub open spec fn next_mode(mode: Option<Seq<char>>) -> Option<Seq<char>> {
    match mode {
        None => Some("plan"@),
        Some(m) => if m == "plan"@ {
            Some("acceptEdits"@)
        } else {
            None
        },
    }
}

/// The permission mode that follows a permission mode that is granted.
pub open spec fn other_grant(mode: Seq<char>) -> Seq<char> {
    if mode == "acceptEdits"@ {
        "bypassPermissions"@
    } else {
        "acceptEdits"@
    }
}

/// The names of the tools that are checked among the first `n`.
pub open spec fn checked_tools(tools: Seq<bool>, n: int) -> Seq<Seq<char>>
    decreases n,
{
    if n <= 0 {
        seq![]
    } else if tools[n - 1] {
        checked_tools(tools, n - 1).push(AVAILABLE_TOOLS@[n - 1].0@)
    } else {
        checked_tools(tools, n - 1)
    }
}

/// The permission that is granted with some tools checked: with none checked the tools stay as
/// they are configured.
pub open spec fn grant(tools: Seq<bool>, mode: Seq<char>) -> PermissionDecisionView {
    let checked = checked_tools(tools, tools.len() as int);
    PermissionDecisionView::Allow {
        permission_mode: Some(mode),
        allowed_tools: if checked.len() == 0 {
            None
        } else {
            Some(checked)
        },
    }
}

/// The status that is filtered by next.
pub open spec fn next_filter(filter: Option<WorkerStatus>) -> Option<WorkerStatus> {
    match filter {
        None => Some(WorkerStatus::Running),
        Some(WorkerStatus::Running) => Some(WorkerStatus::Paused),
        Some(WorkerStatus::Paused) => Some(WorkerStatus::Failed),
        Some(WorkerStatus::Failed) => Some(WorkerStatus::Idle),
        Some(WorkerStatus::Idle) => Some(WorkerStatus::Archived),
        Some(WorkerStatus::Archived) => None,
    }
}

/// Six steps lead through every filter and back.
pub proof fn filters_go_round(filter: Option<WorkerStatus>)
    ensures
        next_filter(next_filter(next_filter(next_filter(next_filter(next_filter(filter))))))
            == filter,
        next_filter(filter) != filter,
{
}

/// Three steps lead through every permission mode of a prompt and back.
pub proof fn modes_go_round()
    ensures
        next_mode(None) == Some("plan"@),
        next_mode(next_mode(None)) == Some("acceptEdits"@),
        next_mode(next_mode(next_mode(None))) == None::<Seq<char>>,
{
    reveal_strlit("plan");
    reveal_strlit("acceptEdits");
    assert("plan"@.len() != "acceptEdits"@.len());
}

/// Only tools on offer are granted, and every one that is checked is.
pub proof fn granted_tools_are_checked(tools: Seq<bool>, n: int)
    requires
        0 <= n <= tools.len() <= AVAILABLE_TOOLS@.len(),
    ensures
        forall|i: int|
            0 <= i < n && #[trigger] tools[i] ==> checked_tools(tools, n).contains(
                AVAILABLE_TOOLS@[i].0@,
            ),
        forall|name: Seq<char>| #[trigger]
            checked_tools(tools, n).contains(name) ==> exists|i: int|
                0 <= i < n && #[trigger] tools[i] && AVAILABLE_TOOLS@[i].0@ == name,
    decreases n,
{
    if n > 0 {
        granted_tools_are_checked(tools, n - 1);
        let before = checked_tools(tools, n - 1);
        let all = checked_tools(tools, n);
        assert forall|i: int| 0 <= i < n && #[trigger] tools[i] implies all.contains(
            AVAILABLE_TOOLS@[i].0@,
        ) by {
            if i == n - 1 {
                assert(all[all.len() - 1] == AVAILABLE_TOOLS@[i].0@);
            } else {
                assert(before.contains(AVAILABLE_TOOLS@[i].0@));
                let k = choose|k: int|
                    0 <= k < before.len() && before[k] == AVAILABLE_TOOLS@[i].0@;
                assert(all[k] == AVAILABLE_TOOLS@[i].0@);
            }
        }
        assert forall|name: Seq<char>| #[trigger] all.contains(name) implies exists|i: int|
            0 <= i < n && #[trigger] tools[i] && AVAILABLE_TOOLS@[i].0@ == name by {
            let k = choose|k: int| 0 <= k < all.len() && all[k] == name;
            if k < before.len() {
                assert(before[k] == name);
                assert(before.contains(name));
            } else {
                assert(tools[n - 1]);
            }
        }
    }
}

impl AppView {
    /// With an input mode, or with none.
    pub open spec fn in_mode(self, mode: Option<InputModeView>) -> AppView {
        AppView { input_mode: mode, ..self }
    }

    /// With a request remembered until its answer has gone through.
    pub open spec fn tracking(
        self,
        request_id: u64,
        worker_name: Seq<char>,
        step_name: Seq<char>,
    ) -> AppView {
        AppView {
            permission_tracker: self.permission_tracker.insert(
                request_id,
                PermissionTrackerEntryView { worker_name, step_name },
            ),
            ..self
        }
    }

    /// What a worker is called.
    pub open spec fn label_of(self, id: WorkerId) -> Seq<char> {
        match self.name_of(id) {
            Some(name) => name,
            None => "worker-"@ + text::decimal(id.0 as nat),
        }
    }

    /// With the permission request that is shown answered.
    pub open spec fn decided(self, decision: PermissionDecisionView, now: i128) -> AppView {
        match self.permission_prompt {
            Some(prompt) => {
                let closed = AppView { permission_prompt: None, ..self };
                let id = prompt.worker_id;
                let request_id = prompt.request.request_id;
                if self.manager.open {
                    closed.commanding(
                        WorkerCommandView::PermissionResponse { id, request_id, decision },
                    ).tracking(request_id, prompt.worker_name, prompt.request.step_name)
                } else {
                    closed.logged(
                        Some(prompt.worker_name),
                        "権限応答の送信に失敗しました: "@ + HandleError::PermissionResponse.text(),
                        now,
                    )
                }
            },
            None => self,
        }
    }

    /// With the tools on offer for a permission request, none of them checked.
    pub open spec fn offering_tools(self, id: WorkerId, request_id: u64) -> AppView {
        AppView { permission_prompt: None, ..self }.in_mode(
            Some(
                InputModeView::ToolSelection {
                    tools: Seq::new(AVAILABLE_TOOLS@.len(), |i: int| false),
                    selected_idx: 0,
                    permission_mode: "acceptEdits"@,
                    worker_id: id,
                    request_id,
                },
            ),
        )
    }

    /// After a key while a permission request is shown.
    pub open spec fn prompt_key(
        self,
        prompt: PermissionPromptStateView,
        key: KeyEvent,
        now: i128,
    ) -> AppView {
        match answer(prompt, key) {
            Some(PermissionDecisionView::Allow { .. }) => self.offering_tools(
                prompt.worker_id,
                prompt.request.request_id,
            ),
            Some(PermissionDecisionView::Deny) => self.decided(PermissionDecisionView::Deny, now),
            None => if turns(key) {
                AppView {
                    permission_prompt: Some(
                        PermissionPromptStateView {
                            selection: prompt.selection.toggled(),
                            ..prompt
                        },
                    ),
                    ..self
                }
            } else {
                self
            },
        }
    }

    /// After a key while a prompt is typed.
    pub open spec fn free_prompt_key(
        self,
        buffer: Seq<char>,
        cursor: usize,
        force_new: bool,
        permission_mode: Option<Seq<char>>,
        worker_name: Option<Seq<char>>,
        key: KeyEvent,
        now: i128,
    ) -> AppView {
        if key.code == KeyCode::Esc {
            self.in_mode(None)
        } else if key.code == KeyCode::Enter {
            self.in_mode(None).submitted(buffer, force_new, permission_mode, worker_name, now)
        } else {
            let cycles = key.code == KeyCode::Char('p') && key.modifiers.control;
            let (buffer, cursor) = prompt_typed(buffer, cursor, key);
            self.in_mode(
                Some(
                    InputModeView::FreePrompt {
                        buffer,
                        cursor,
                        force_new,
                        permission_mode: if cycles {
                            next_mode(permission_mode)
                        } else {
                            permission_mode
                        },
                        worker_name,
                    },
                ),
            )
        }
    }

    /// After a key while the ways to a new worker are on offer.
    pub open spec fn create_key(self, selected: usize, key: KeyEvent) -> AppView {
        let closed = self.in_mode(None);
        if key.code == KeyCode::Esc {
            closed
        } else if key.code == KeyCode::Enter {
            if selected == 0 {
                closed.naming_workflow_worker()
            } else if selected == 1 {
                closed.naming_prompt_worker()
            } else {
                closed.wanting(AppEffectView::ListWorktrees)
            }
        } else {
            self.in_mode(
                Some(
                    InputModeView::CreateWorkerSelection { selected: moved(selected, 2, key.code) },
                ),
            )
        }
    }

    /// After a key while worktrees are on offer.
    pub open spec fn worktree_key(
        self,
        worktrees: Seq<ExistingWorktreeView>,
        selected: usize,
        key: KeyEvent,
        now: i128,
    ) -> AppView {
        if key.code == KeyCode::Esc {
            self.in_mode(None)
        } else if key.code == KeyCode::Enter && selected < worktrees.len() {
            self.in_mode(None).created_in_worktree(
                worktrees[selected as int].path,
                worktrees[selected as int].branch,
                now,
            )
        } else {
            let last = if worktrees.len() > 0 {
                worktrees.len() - 1
            } else {
                0
            };
            self.in_mode(
                Some(
                    InputModeView::WorktreeSelection {
                        worktrees,
                        selected: moved(selected, last, key.code),
                    },
                ),
            )
        }
    }

    /// With a permission request answered from the list of tools.
    pub open spec fn granted(
        self,
        id: WorkerId,
        request_id: u64,
        decision: PermissionDecisionView,
        now: i128,
    ) -> AppView {
        if self.manager.open {
            let sent = self.commanding(
                WorkerCommandView::PermissionResponse { id, request_id, decision },
            );
            if decision is Deny {
                sent
            } else {
                sent.tracking(request_id, self.label_of(id), "Tool selection"@)
            }
        } else {
            self.noted(
                "権限応答の送信に失敗しました: "@ + HandleError::PermissionResponse.text(),
                now,
            )
        }
    }

    /// After a key while the tools are on offer. The place behind the last tool is the
    /// permission mode.
    pub open spec fn tool_key(
        self,
        tools: Seq<bool>,
        selected_idx: usize,
        permission_mode: Seq<char>,
        worker_id: WorkerId,
        request_id: u64,
        key: KeyEvent,
        now: i128,
    ) -> AppView {
        if key.code == KeyCode::Esc {
            self.in_mode(None).granted(worker_id, request_id, PermissionDecisionView::Deny, now)
        } else if key.code == KeyCode::Enter {
            self.in_mode(None).granted(worker_id, request_id, grant(tools, permission_mode), now)
        } else {
            let chosen = key.code == KeyCode::Char(' ');
            self.in_mode(
                Some(
                    InputModeView::ToolSelection {
                        tools: if chosen && selected_idx < tools.len() {
                            tools.update(selected_idx as int, !tools[selected_idx as int])
                        } else {
                            tools
                        },
                        selected_idx: moved(selected_idx, tools.len() as int, key.code),
                        permission_mode: if chosen && selected_idx >= tools.len() {
                            other_grant(permission_mode)
                        } else {
                            permission_mode
                        },
                        worker_id,
                        request_id,
                    },
                ),
            )
        }
    }

    /// With a name entered for a new worker; without one the worker gets a default name.
    pub open spec fn named(
        self,
        name: Seq<char>,
        workflow_name: Option<Seq<char>>,
        next_action: NameInputNextAction,
        now: i128,
    ) -> AppView {
        match next_action {
            NameInputNextAction::CreateWithWorkflow => if name.len() == 0 {
                self.created_by_default(workflow_name, now)
            } else {
                self.created_named(name, workflow_name, now)
            },
            NameInputNextAction::CreateWithFreePrompt => self.prompting(
                true,
                if name.len() == 0 {
                    None
                } else {
                    Some(name)
                },
            ),
        }
    }

    /// After a key while the name of a new worker is typed.
    pub open spec fn name_key(
        self,
        buffer: Seq<char>,
        cursor: usize,
        workflow_name: Option<Seq<char>>,
        next_action: NameInputNextAction,
        key: KeyEvent,
        now: i128,
    ) -> AppView {
        if key.code == KeyCode::Esc {
            self.in_mode(None).named(seq![], workflow_name, next_action, now)
        } else if key.code == KeyCode::Enter {
            self.in_mode(None).named(text::trimmed(buffer), workflow_name, next_action, now)
        } else {
            let (buffer, cursor) = typing::typed(buffer, cursor, key);
            self.in_mode(
                Some(InputModeView::NameInput { buffer, cursor, workflow_name, next_action }),
            )
        }
    }

    /// After a key while another name of a worker is typed.
    pub open spec fn rename_key(
        self,
        buffer: Seq<char>,
        cursor: usize,
        worker_id: WorkerId,
        key: KeyEvent,
        now: i128,
    ) -> AppView {
        if key.code == KeyCode::Esc {
            self.in_mode(None)
        } else if key.code == KeyCode::Enter {
            let name = text::trimmed(buffer);
            if name.len() == 0 {
                self.in_mode(None).noted("空の名前は無効です"@, now)
            } else {
                self.in_mode(None).renamed(worker_id, name, now)
            }
        } else {
            let (buffer, cursor) = typing::typed(buffer, cursor, key);
            self.in_mode(Some(InputModeView::RenameWorker { buffer, cursor, worker_id }))
        }
    }

    /// After a key while an input mode takes the keys.
    pub open spec fn mode_key(self, mode: InputModeView, key: KeyEvent, now: i128) -> AppView {
        match mode {
            InputModeView::FreePrompt { buffer, cursor, force_new, permission_mode, worker_name } =>
                self.free_prompt_key(
                buffer,
                cursor,
                force_new,
                permission_mode,
                worker_name,
                key,
                now,
            ),
            InputModeView::CreateWorkerSelection { selected } => self.create_key(selected, key),
            InputModeView::WorktreeSelection { worktrees, selected } => self.worktree_key(
                worktrees,
                selected,
                key,
                now,
            ),
            InputModeView::ToolSelection {
                tools,
                selected_idx,
                permission_mode,
                worker_id,
                request_id,
            } => self.tool_key(
                tools,
                selected_idx,
                permission_mode,
                worker_id,
                request_id,
                key,
                now,
            ),
            InputModeView::NameInput { buffer, cursor, workflow_name, next_action } => self.name_key(
                buffer,
                cursor,
                workflow_name,
                next_action,
                key,
                now,
            ),
            InputModeView::RenameWorker { buffer, cursor, worker_id } => self.rename_key(
                buffer,
                cursor,
                worker_id,
                key,
                now,
            ),
        }
    }

    /// With the next filter, and the first worker that it lets through selected.
    pub open spec fn filter_cycled(self, now: i128) -> AppView {
        AppView {
            selected: 0,
            ..AppView { status_filter: next_filter(self.status_filter), ..self }.noted(
                "ステータスフィルタを更新しました"@,
                now,
            )
        }.clamped()
    }

    /// After a key that moves up.
    pub open spec fn up(self) -> AppView {
        if self.show_session_history {
            AppView {
                session_history_scroll: if self.session_history_scroll > 0 {
                    (self.session_history_scroll - 1) as usize
                } else {
                    0
                },
                ..self
            }
        } else if self.show_logs {
            if self.log_view_mode == LogViewMode::Overview {
                AppView {
                    selected_step: if self.selected_step > 0 {
                        (self.selected_step - 1) as usize
                    } else {
                        0
                    },
                    ..self
                }
            } else {
                self.scrolled_up(1)
            }
        } else {
            self.selected_previous()
        }
    }

    /// After a key that moves down.
    pub open spec fn down(self) -> AppView {
        if self.show_session_history {
            AppView {
                session_history_scroll: (self.session_history_scroll + 1) as usize,
                ..self
            }
        } else if self.show_logs {
            if self.log_view_mode == LogViewMode::Overview {
                self.step_down()
            } else {
                self.scrolled_down()
            }
        } else {
            self.selected_next()
        }
    }

    /// After the key that leads back.
    pub open spec fn back(self) -> AppView {
        if self.show_session_history {
            AppView { show_session_history: false, ..self }
        } else if self.show_logs && self.log_view_mode != LogViewMode::Overview {
            AppView { log_view_mode: LogViewMode::Overview, log_scroll: 0, ..self }
        } else {
            self
        }
    }

    /// After a character while nothing else takes the keys.
    pub open spec fn char_key(self, c: char, shift: bool, now: i128) -> AppView {
        if c == 'c' {
            self.in_mode(Some(InputModeView::CreateWorkerSelection { selected: 0 }))
        } else if c == 'd' {
            self.deleting(now)
        } else if c == 'r' {
            self.restarting(now)
        } else if c == 'n' {
            self.renaming(now)
        } else if c == 'i' {
            self.prompting(false, None)
        } else if c == 'h' {
            AppView { show_help: !self.show_help, ..self }
        } else if c == 'l' {
            self.logs_toggled()
        } else if c == 's' {
            self.session_history_toggled()
        } else if c == 'w' {
            self.workflow_cycled(now)
        } else if c == 'a' {
            self.filter_cycled(now)
        } else if c == 'k' {
            if self.show_session_history {
                self.previous_session()
            } else {
                self.up()
            }
        } else if c == 'j' {
            if self.show_session_history {
                self.next_session()
            } else {
                self.down()
            }
        } else if c == 'q' && self.show_session_history {
            self.back()
        } else if c == 'C' && shift {
            self.compacted(now)
        } else if c == 'I' && shift {
            self.going_interactive(now)
        } else if c == 'A' && shift {
            self.auto_scroll_toggled(now)
        } else {
            self
        }
    }

    /// After a key while nothing else takes the keys.
    pub open spec fn plain_key(self, key: KeyEvent, now: i128) -> AppView {
        match key.code {
            KeyCode::Char(c) => self.char_key(c, key.modifiers.shift, now),
            KeyCode::Up => self.up(),
            KeyCode::Down => self.down(),
            KeyCode::Esc => self.back(),
            KeyCode::Tab => if self.show_logs {
                self.tab_switched(actions::next_tab(self.log_view_mode))
            } else {
                self
            },
            KeyCode::BackTab => if self.show_logs {
                self.tab_switched(actions::previous_tab(self.log_view_mode))
            } else {
                self
            },
            KeyCode::Enter => if self.show_logs && self.log_view_mode == LogViewMode::Overview {
                self.entering_detail()
            } else {
                self
            },
            KeyCode::Home => if self.show_logs {
                AppView { log_scroll: 0, auto_scroll_logs: false, ..self }
            } else {
                self.moved_to(0)
            },
            KeyCode::End => if self.show_logs {
                self.scrolled_to_end()
            } else {
                self.selected_last()
            },
            KeyCode::PageUp => if self.show_logs {
                self.scrolled_up(10)
            } else {
                self
            },
            KeyCode::PageDown => if self.show_logs {
                self.paged_down()
            } else {
                self
            },
            _ => self,
        }
    }

    /// After a key: a permission request takes the keys first, an input mode second.
    pub open spec fn after_key(self, key: KeyEvent, now: i128) -> AppView {
        match self.permission_prompt {
            Some(prompt) => self.prompt_key(prompt, key, now),
            None => match self.input_mode {
                Some(mode) => self.mode_key(mode, key, now),
                None => self.plain_key(key, now),
            },
        }
    }

    /// Whether a key ends the program; while session histories are shown, `q` only closes them.
    pub open spec fn quits(self, key: KeyEvent) -> bool {
        self.permission_prompt is None && self.input_mode is None && key.code == KeyCode::Char('q')
            && !self.show_session_history
    }
}

/// Returns a place after a key that moves up or down.
fn move_place(place: usize, last: usize, code: KeyCode) -> (r: usize)
    requires
        place < usize::MAX,
    ensures
        r == moved(place, last as int, code),
{
    if code == KeyCode::Up || code == KeyCode::Char('k') {
        if place > 0 {
            place - 1
        } else {
            0
        }
    } else if code == KeyCode::Down || code == KeyCode::Char('j') {
        if place + 1 <= last {
            place + 1
        } else {
            last
        }
    } else {
        place
    }
}

/// Returns the names of the tools that are checked.
fn names_of_checked(tools: &Vec<bool>) -> (r: Vec<String>)
    requires
        tools.len() <= AVAILABLE_TOOLS@.len(),
    ensures
        r.deep_view() == checked_tools(tools@, tools.len() as int),
{
    let mut out: Vec<String> = Vec::new();
    assert(out.deep_view() =~= seq![]);
    for i in 0..tools.len()
        invariant
            tools.len() <= AVAILABLE_TOOLS@.len(),
            out.deep_view() == checked_tools(tools@, i as int),
    {
        if tools[i] {
            let ghost before = out.deep_view();
            out.push(tool_def(i).name.to_owned());
            assert(out.deep_view() =~= before.push(AVAILABLE_TOOLS@[i as int].0@));
        }
    }
    out
}

impl App {
    /// Takes a key; returns whether it ends the program.
    pub fn handle_key(&mut self, key: KeyEvent, now: i128) -> (r: bool)
        requires
            old(self).deep_view().wf(),
            old(self).session_history_scroll < usize::MAX,
        ensures
            final(self).deep_view() == old(self).deep_view().after_key(key, now),
            r == old(self).deep_view().quits(key),
            final(self).deep_view().wf(),
    {
        proof {
            let app = self.deep_view();
            assert forall|i: int| 0 <= i < app.workers.len() implies (
            #[trigger] app.workers[i]).structured_logs.len() <= usize::MAX by {
                assert(app.workers[i] == self.workers@[i].deep_view());
                assert(app.workers[i].structured_logs.len()
                    == self.workers@[i].structured_logs.len());
            }
            key_laws::keys_keep_wf(app, key, now);
        }
        self.take_key(key, now)
    }

    fn take_key(&mut self, key: KeyEvent, now: i128) -> (r: bool)
        requires
            old(self).deep_view().wf(),
            old(self).session_history_scroll < usize::MAX,
        ensures
            final(self).deep_view() == old(self).deep_view().after_key(key, now),
            r == old(self).deep_view().quits(key),
    {
        if self.permission_prompt.is_some() {
            self.handle_prompt_key(key, now);
            return false;
        }
        if self.input_mode.is_some() {
            self.handle_input_key(key, now);
            return false;
        }
        if key.code == KeyCode::Char('q') && !self.show_session_history {
            return true;
        }
        self.handle_plain_key(key, now);
        false
    }

    fn handle_input_key(&mut self, key: KeyEvent, now: i128)
        requires
            old(self).input_mode is Some,
            app::mode_wf(old(self).deep_view().input_mode->0),
        ensures
            final(self).deep_view() == old(self).deep_view().mode_key(
                old(self).deep_view().input_mode->0,
                key,
                now,
            ),
    {
        let ghost before = self.deep_view();
        if let Some(mode) = self.input_mode.take() {
            proof {
                key_laws::lemma_mode_key_of_closed(before, mode.deep_view(), key, now);
            }
            assert(self.deep_view() == before.in_mode(None));
            self.handle_mode_key(mode, key, now);
        }
    }

    fn handle_prompt_key(&mut self, key: KeyEvent, now: i128)
        requires
            old(self).permission_prompt is Some,
        ensures
            final(self).deep_view() == old(self).deep_view().prompt_key(
                old(self).deep_view().permission_prompt->0,
                key,
                now,
            ),
    {
        if let Some(mut prompt) = self.permission_prompt.take() {
            let id = prompt.worker_id;
            let request_id = prompt.request.request_id;
            let decision = match key.code {
                KeyCode::Char(c) => if c == 'y' && key.modifiers.is_empty() {
                    Some(PermissionDecision::Allow { permission_mode: None, allowed_tools: None })
                } else if c == 'n' && key.modifiers.is_empty() {
                    Some(PermissionDecision::Deny)
                } else {
                    None
                },
                KeyCode::Enter => Some(prompt.selection.clone()),
                KeyCode::Esc => Some(PermissionDecision::Deny),
                _ => None,
            };
            match decision {
                Some(PermissionDecision::Allow { .. }) => {
                    let mut tools: Vec<bool> = Vec::new();
                    for i in 0..AVAILABLE_TOOLS.len()
                        invariant
                            tools@ == Seq::new(i as nat, |j: int| false),
                    {
                        tools.push(false);
                        assert(tools@ =~= Seq::new((i + 1) as nat, |j: int| false));
                    }
                    self.input_mode = Some(
                        InputMode::ToolSelection {
                            tools,
                            selected_idx: 0,
                            permission_mode: "acceptEdits".to_owned(),
                            worker_id: id,
                            request_id,
                        },
                    );
                },
                Some(PermissionDecision::Deny) => {
                    self.permission_prompt = Some(prompt);
                    self.submit_permission_decision(PermissionDecision::Deny, now);
                },
                None => {
                    if key.modifiers.is_typing() && (key.code == KeyCode::Left || key.code
                        == KeyCode::Right || key.code == KeyCode::Char('h') || key.code
                        == KeyCode::Char('l')) {
                        prompt.toggle();
                    }
                    self.permission_prompt = Some(prompt);
                },
            }
        }
    }

    /// Answers the permission request that is shown.
    fn submit_permission_decision(&mut self, decision: PermissionDecision, now: i128)
        ensures
            final(self).deep_view() == old(self).deep_view().decided(decision.deep_view(), now),
    {
        if let Some(prompt) = self.permission_prompt.take() {
            let id = prompt.worker_id;
            let request_id = prompt.request.request_id;
            match self.manager.respond_permission(id, request_id, decision) {
                Ok(()) => {
                    self.track(request_id, prompt.worker_name, prompt.request.step_name);
                },
                Err(e) => {
                    self.push_log_with_worker(
                        Some(prompt.worker_name.as_str()),
                        cat2("権限応答の送信に失敗しました: ", e.message().as_str()),
                        now,
                    );
                },
            }
        }
    }

    pub(crate) fn track(&mut self, request_id: u64, worker_name: String, step_name: String)
        ensures
            final(self).deep_view() == old(self).deep_view().tracking(
                request_id,
                worker_name@,
                step_name@,
            ),
    {
        broadcast use vstd::std_specs::hash::group_hash_axioms;

        let ghost before = self.permission_tracker@;
        let entry = PermissionTrackerEntry { worker_name, step_name };
        let ghost view = entry.deep_view();
        let _replaced = self.permission_tracker.insert(request_id, entry);
        assert(app::tracker_view(self.permission_tracker@) =~= app::tracker_view(before).insert(
            request_id,
            view,
        ));
    }

    pub(crate) fn worker_label(&self, id: WorkerId) -> (r: String)
        ensures
            r@ == self.deep_view().label_of(id),
    {
        match self.worker_name_by_id(id) {
            Some(name) => name,
            None => cat2("worker-", usize_text(id.0).as_str()),
        }
    }

    fn handle_mode_key(&mut self, mode: InputMode, key: KeyEvent, now: i128)
        requires
            old(self).input_mode is None,
            app::mode_wf(mode.deep_view()),
        ensures
            final(self).deep_view() == old(self).deep_view().mode_key(mode.deep_view(), key, now),
    {
        match mode {
            InputMode::FreePrompt { buffer, cursor, force_new, permission_mode, worker_name } => {
                self.handle_free_prompt_key(
                    buffer,
                    cursor,
                    force_new,
                    permission_mode,
                    worker_name,
                    key,
                    now,
                );
            },
            InputMode::CreateWorkerSelection { selected } => {
                self.handle_create_key(selected, key);
            },
            InputMode::WorktreeSelection { worktrees, selected } => {
                self.handle_worktree_key(worktrees, selected, key, now);
            },
            InputMode::ToolSelection {
                tools,
                selected_idx,
                permission_mode,
                worker_id,
                request_id,
            } => {
                self.handle_tool_key(
                    tools,
                    selected_idx,
                    permission_mode,
                    worker_id,
                    request_id,
                    key,
                    now,
                );
            },
            InputMode::NameInput { buffer, cursor, workflow_name, next_action } => {
                self.handle_name_key(buffer, cursor, workflow_name, next_action, key, now);
            },
            InputMode::RenameWorker { buffer, cursor, worker_id } => {
                self.handle_rename_key(buffer, cursor, worker_id, key, now);
            },
        }
    }

    fn handle_free_prompt_key(
        &mut self,
        buffer: String,
        cursor: usize,
        force_new: bool,
        permission_mode: Option<String>,
        worker_name: Option<String>,
        key: KeyEvent,
        now: i128,
    )
        requires
            old(self).input_mode is None,
            cursor <= buffer@.len(),
        ensures
            final(self).deep_view() == old(self).deep_view().free_prompt_key(
                buffer@,
                cursor,
                force_new,
                permission_mode.deep_view(),
                worker_name.deep_view(),
                key,
                now,
            ),
    {
        let mut buffer = buffer;
        let mut cursor: usize = cursor;
        let mut permission_mode = permission_mode;
        match key.code {
            KeyCode::Esc => {
                return ;
            },
            KeyCode::Enter => {
                self.submit_free_prompt(buffer, force_new, permission_mode, worker_name, now);
                return ;
            },
            KeyCode::Tab => {
                put_char(&mut buffer, &mut cursor, '\t');
            },
            KeyCode::Char(c) => {
                if c == 'p' && key.modifiers.control {
                    permission_mode = match &permission_mode {
                        None => Some("plan".to_owned()),
                        Some(m) => if same(m.as_str(), "plan") {
                            Some("acceptEdits".to_owned())
                        } else {
                            None
                        },
                    };
                } else if c == 'j' && key.modifiers.control {
                    put_char(&mut buffer, &mut cursor, '\n');
                } else {
                    type_key(&mut buffer, &mut cursor, key);
                }
            },
            _ => {
                type_key(&mut buffer, &mut cursor, key);
            },
        }
        self.input_mode = Some(
            InputMode::FreePrompt { buffer, cursor, force_new, permission_mode, worker_name },
        );
    }

    fn handle_create_key(&mut self, selected: usize, key: KeyEvent)
        requires
            old(self).input_mode is None,
            selected <= 2,
        ensures
            final(self).deep_view() == old(self).deep_view().create_key(selected, key),
    {
        match key.code {
            KeyCode::Esc => {},
            KeyCode::Enter => {
                if selected == 0 {
                    self.enqueue_create_worker();
                } else if selected == 1 {
                    self.show_name_input_for_free_prompt();
                } else {
                    self.want(AppEffect::ListWorktrees);
                }
            },
            _ => {
                self.input_mode = Some(
                    InputMode::CreateWorkerSelection { selected: move_place(selected, 2, key.code) },
                );
            },
        }
    }

    fn handle_worktree_key(
        &mut self,
        worktrees: Vec<ExistingWorktree>,
        selected: usize,
        key: KeyEvent,
        now: i128,
    )
        requires
            old(self).input_mode is None,
            selected == 0 || selected < worktrees.len(),
        ensures
            final(self).deep_view() == old(self).deep_view().worktree_key(
                worktrees.deep_view(),
                selected,
                key,
                now,
            ),
    {
        if key.code == KeyCode::Esc {
            return ;
        }
        if key.code == KeyCode::Enter && selected < worktrees.len() {
            let path = worktrees[selected].path.clone();
            let branch = worktrees[selected].branch.clone();
            self.enqueue_create_worker_with_worktree(path, branch, now);
            return ;
        }
        let last: usize = if worktrees.len() > 0 {
            worktrees.len() - 1
        } else {
            0
        };
        self.input_mode = Some(
            InputMode::WorktreeSelection {
                worktrees,
                selected: move_place(selected, last, key.code),
            },
        );
    }

    fn handle_tool_key(
        &mut self,
        tools: Vec<bool>,
        selected_idx: usize,
        permission_mode: String,
        worker_id: WorkerId,
        request_id: u64,
        key: KeyEvent,
        now: i128,
    )
        requires
            old(self).input_mode is None,
            tools.len() == AVAILABLE_TOOLS@.len(),
            selected_idx <= tools.len(),
        ensures
            final(self).deep_view() == old(self).deep_view().tool_key(
                tools@,
                selected_idx,
                permission_mode@,
                worker_id,
                request_id,
                key,
                now,
            ),
    {
        let mut tools = tools;
        let mut permission_mode = permission_mode;
        let mut place: usize = selected_idx;
        match key.code {
            KeyCode::Esc => {
                self.answer_from_tools(worker_id, request_id, PermissionDecision::Deny, now);
                return ;
            },
            KeyCode::Enter => {
                let names = names_of_checked(&tools);
                let decision = PermissionDecision::Allow {
                    permission_mode: Some(permission_mode),
                    allowed_tools: if names.len() == 0 {
                        None
                    } else {
                        Some(names)
                    },
                };
                self.answer_from_tools(worker_id, request_id, decision, now);
                return ;
            },
            KeyCode::Char(c) => {
                if c == ' ' {
                    if selected_idx < tools.len() {
                        let checked = tools[selected_idx];
                        tools.set(selected_idx, !checked);
                    } else if same(permission_mode.as_str(), "acceptEdits") {
                        permission_mode = "bypassPermissions".to_owned();
                    } else {
                        permission_mode = "acceptEdits".to_owned();
                    }
                } else {
                    place = move_place(selected_idx, tools.len(), key.code);
                }
            },
            _ => {
                place = move_place(selected_idx, tools.len(), key.code);
            },
        }
        self.input_mode = Some(
            InputMode::ToolSelection {
                tools,
                selected_idx: place,
                permission_mode,
                worker_id,
                request_id,
            },
        );
    }

    fn answer_from_tools(
        &mut self,
        id: WorkerId,
        request_id: u64,
        decision: PermissionDecision,
        now: i128,
    )
        ensures
            final(self).deep_view() == old(self).deep_view().granted(
                id,
                request_id,
                decision.deep_view(),
                now,
            ),
    {
        let denied = matches!(decision, PermissionDecision::Deny);
        match self.manager.respond_permission(id, request_id, decision) {
            Ok(()) => {
                if !denied {
                    let worker_name = self.worker_label(id);
                    self.track(request_id, worker_name, "Tool selection".to_owned());
                }
            },
            Err(e) => {
                self.push_log(
                    cat2("権限応答の送信に失敗しました: ", e.message().as_str()),
                    now,
                );
            },
        }
    }

    fn take_name(
        &mut self,
        name: String,
        workflow_name: Option<String>,
        next_action: NameInputNextAction,
        now: i128,
    )
        ensures
            final(self).deep_view() == old(self).deep_view().named(
                name@,
                workflow_name.deep_view(),
                next_action,
                now,
            ),
    {
        let unnamed = name.as_str().is_empty();
        match next_action {
            NameInputNextAction::CreateWithWorkflow => {
                if unnamed {
                    self.create_worker_with_default_name(workflow_name, now);
                } else {
                    self.create_worker_with_name(name, workflow_name, now);
                }
            },
            NameInputNextAction::CreateWithFreePrompt => {
                self.show_free_prompt(
                    true,
                    if unnamed {
                        None
                    } else {
                        Some(name)
                    },
                );
            },
        }
    }

    fn handle_name_key(
        &mut self,
        buffer: String,
        cursor: usize,
        workflow_name: Option<String>,
        next_action: NameInputNextAction,
        key: KeyEvent,
        now: i128,
    )
        requires
            old(self).input_mode is None,
            cursor <= buffer@.len(),
        ensures
            final(self).deep_view() == old(self).deep_view().name_key(
                buffer@,
                cursor,
                workflow_name.deep_view(),
                next_action,
                key,
                now,
            ),
    {
        let mut buffer = buffer;
        let mut cursor: usize = cursor;
        match key.code {
            KeyCode::Esc => {
                let name = String::new();
                assert(name@ =~= seq![]);
                self.take_name(name, workflow_name, next_action, now);
            },
            KeyCode::Enter => {
                self.take_name(trim(buffer.as_str()), workflow_name, next_action, now);
            },
            _ => {
                type_key(&mut buffer, &mut cursor, key);
                self.input_mode = Some(
                    InputMode::NameInput { buffer, cursor, workflow_name, next_action },
                );
            },
        }
    }

    fn handle_rename_key(
        &mut self,
        buffer: String,
        cursor: usize,
        worker_id: WorkerId,
        key: KeyEvent,
        now: i128,
    )
        requires
            old(self).input_mode is None,
            cursor <= buffer@.len(),
        ensures
            final(self).deep_view() == old(self).deep_view().rename_key(
                buffer@,
                cursor,
                worker_id,
                key,
                now,
            ),
    {
        let mut buffer = buffer;
        let mut cursor: usize = cursor;
        match key.code {
            KeyCode::Esc => {},
            KeyCode::Enter => {
                let name = trim(buffer.as_str());
                if name.as_str().is_empty() {
                    self.push_log("空の名前は無効です".to_owned(), now);
                } else {
                    self.rename_worker(worker_id, name, now);
                }
            },
            _ => {
                type_key(&mut buffer, &mut cursor, key);
                self.input_mode = Some(InputMode::RenameWorker { buffer, cursor, worker_id });
            },
        }
    }

    /// Filters by the next status.
    pub fn cycle_filter(&mut self, now: i128)
        ensures
            final(self).deep_view() == old(self).deep_view().filter_cycled(now),
    {
        self.status_filter = match self.status_filter {
            None => Some(WorkerStatus::Running),
            Some(WorkerStatus::Running) => Some(WorkerStatus::Paused),
            Some(WorkerStatus::Paused) => Some(WorkerStatus::Failed),
            Some(WorkerStatus::Failed) => Some(WorkerStatus::Idle),
            Some(WorkerStatus::Idle) => Some(WorkerStatus::Archived),
            Some(WorkerStatus::Archived) => None,
        };
        self.push_log("ステータスフィルタを更新しました".to_owned(), now);
        self.selected = 0;
        self.clamp_selection();
    }

    fn move_up(&mut self)
        ensures
            final(self).deep_view() == old(self).deep_view().up(),
    {
        if self.show_session_history {
            self.scroll_session_history_up();
        } else if self.show_logs {
            match self.log_view_mode {
                LogViewMode::Overview => self.select_step_up(),
                _ => self.scroll_log_up(),
            }
        } else {
            self.select_previous();
        }
    }

    fn move_down(&mut self)
        requires
            old(self).deep_view().wf(),
            old(self).session_history_scroll < usize::MAX,
        ensures
            final(self).deep_view() == old(self).deep_view().down(),
    {
        if self.show_session_history {
            self.scroll_session_history_down();
        } else if self.show_logs {
            match self.log_view_mode {
                LogViewMode::Overview => self.select_step_down(),
                _ => self.scroll_log_down(),
            }
        } else {
            proof {
                let app = self.deep_view();
                app::visible_are_workers(
                    app.workers,
                    app.status_filter,
                    app.workers.len() as int,
                );
            }
            self.select_next();
        }
    }

    fn handle_char(&mut self, c: char, shift: bool, now: i128)
        requires
            old(self).deep_view().wf(),
            old(self).session_history_scroll < usize::MAX,
        ensures
            final(self).deep_view() == old(self).deep_view().char_key(c, shift, now),
    {
        if c == 'c' {
            self.show_create_selection();
        } else if c == 'd' {
            self.enqueue_delete_worker(now);
        } else if c == 'r' {
            self.enqueue_restart_worker(now);
        } else if c == 'n' {
            self.show_rename_modal(now);
        } else if c == 'i' {
            self.start_free_prompt();
        } else if c == 'h' {
            self.toggle_help();
        } else if c == 'l' {
            self.toggle_logs();
        } else if c == 's' {
            self.toggle_session_history();
        } else if c == 'w' {
            self.cycle_workflow(now);
        } else if c == 'a' {
            self.cycle_filter(now);
        } else if c == 'k' {
            if self.show_session_history {
                self.select_previous_session();
            } else {
                self.move_up();
            }
        } else if c == 'j' {
            if self.show_session_history {
                self.select_next_session();
            } else {
                self.move_down();
            }
        } else if c == 'q' && self.show_session_history {
            self.show_session_history = false;
        } else if c == 'C' && shift {
            self.compact_logs(now);
        } else if c == 'I' && shift {
            self.start_interactive_prompt(now);
        } else if c == 'A' && shift {
            self.toggle_auto_scroll(now);
        }
    }

    fn handle_plain_key(&mut self, key: KeyEvent, now: i128)
        requires
            old(self).deep_view().wf(),
            old(self).session_history_scroll < usize::MAX,
        ensures
            final(self).deep_view() == old(self).deep_view().plain_key(key, now),
    {
        match key.code {
            KeyCode::Char(c) => self.handle_char(c, key.modifiers.shift, now),
            KeyCode::Up => self.move_up(),
            KeyCode::Down => self.move_down(),
            KeyCode::Esc => {
                if self.show_session_history {
                    self.show_session_history = false;
                } else if self.show_logs && self.log_view_mode != LogViewMode::Overview {
                    self.back_to_overview();
                }
            },
            KeyCode::Tab => {
                if self.show_logs {
                    self.switch_log_tab_next();
                }
            },
            KeyCode::BackTab => {
                if self.show_logs {
                    self.switch_log_tab_prev();
                }
            },
            KeyCode::Enter => {
                if self.show_logs && self.log_view_mode == LogViewMode::Overview {
                    self.enter_detail_from_overview();
                }
            },
            KeyCode::Home => {
                if self.show_logs {
                    self.scroll_log_home();
                } else {
                    self.select_first();
                }
            },
            KeyCode::End => {
                if self.show_logs {
                    self.scroll_log_end();
                } else {
                    self.select_last();
                }
            },
            KeyCode::PageUp => {
                if self.show_logs {
                    self.scroll_log_page_up();
                }
            },
            KeyCode::PageDown => {
                if self.show_logs {
                    self.scroll_log_page_down();
                }
            },
            _ => {},
        }
    }
}

} // verus!
