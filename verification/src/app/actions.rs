//! What the user can do on the dashboard.
use crate::app::types::{
    AppEffect, AppEffectView, InputMode, InputModeView, InteractiveRequest, InteractiveRequestView,
    NameInputNextAction,
};
use crate::app::{self, find_view, App, AppView};
use crate::model::{self, Duplicate};
use crate::app::worker_view::WorkerViewModel;
use crate::paths;
use crate::state::{SessionHistory, SessionHistoryView};
use crate::text::{self, cat2, cat3, cat4, cat5, cat6, trim, usize_text};
use crate::ui::helpers::{self, permission_mode_label};
use crate::ui::types::LogViewMode;
use crate::worker::{
    CreateWorkerRequest, CreateWorkerRequestView, ExistingWorktree, ExistingWorktreeView,
    HandleError, WorkerCommandView, WorkerId, WorkerStatus,
};
use std::collections::VecDeque;
use vstd::prelude::*;

verus! {

/// The text of the number of a worker.
pub open spec fn id_text(id: WorkerId) -> Seq<char> {
    "WorkerId("@ + text::decimal(id.0 as nat) + ")"@
}

impl AppView {
    /// With a command sent to the manager, where it takes any.
    pub open spec fn commanding(self, command: WorkerCommandView) -> AppView {
        AppView { manager: self.manager.sent(command), ..self }
    }

    /// With a command sent, and a note of how that went.
    pub open spec fn commanding_noted(
        self,
        command: WorkerCommandView,
        success: Seq<char>,
        failure: Seq<char>,
        error: HandleError,
        now: i128,
    ) -> AppView {
        if self.manager.open {
            self.commanding(command).noted(success, now)
        } else {
            self.noted(failure + error.text(), now)
        }
    }

    /// With a worker asked for, and a note of how that went.
    pub open spec fn creating(
        self,
        request: CreateWorkerRequestView,
        success: Seq<char>,
        now: i128,
    ) -> AppView {
        self.commanding_noted(
            WorkerCommandView::Create(request),
            success,
            "ワーカー作成に失敗しました: "@,
            HandleError::Creation,
            now,
        )
    }

    /// The name of the selected workflow.
    pub open spec fn chosen_workflow(self) -> Option<Seq<char>> {
        if self.selected_workflow_idx < self.workflows.len() {
            Some(self.workflows[self.selected_workflow_idx as int].name)
        } else {
            None
        }
    }

    /// Asking for the name of a worker that runs the selected workflow.
    pub open spec fn naming_workflow_worker(self) -> AppView {
        AppView {
            input_mode: Some(
                InputModeView::NameInput {
                    buffer: seq![],
                    cursor: 0,
                    workflow_name: self.chosen_workflow(),
                    next_action: NameInputNextAction::CreateWithWorkflow,
                },
            ),
            ..self
        }
    }

    /// Asking for the name of a worker that runs a prompt.
    pub open spec fn naming_prompt_worker(self) -> AppView {
        AppView {
            input_mode: Some(
                InputModeView::NameInput {
                    buffer: seq![],
                    cursor: 0,
                    workflow_name: None,
                    next_action: NameInputNextAction::CreateWithFreePrompt,
                },
            ),
            ..self
        }
    }

    /// Asking for a prompt.
    pub open spec fn prompting(self, force_new: bool, worker_name: Option<Seq<char>>) -> AppView {
        AppView {
            input_mode: Some(
                InputModeView::FreePrompt {
                    buffer: seq![],
                    cursor: 0,
                    force_new,
                    permission_mode: None,
                    worker_name,
                },
            ),
            ..self
        }
    }

    /// With a worker asked for that gets a default name.
    pub open spec fn created_by_default(self, workflow: Option<Seq<char>>, now: i128) -> AppView {
        self.creating(
            CreateWorkerRequestView { workflow, ..CreateWorkerRequestView::open() },
            "ワーカーを作成しました（デフォルト名）"@,
            now,
        )
    }

    /// With a worker asked for that gets a name of the user.
    pub open spec fn created_named(
        self,
        name: Seq<char>,
        workflow: Option<Seq<char>>,
        now: i128,
    ) -> AppView {
        self.creating(
            CreateWorkerRequestView {
                workflow,
                name: Some(name),
                ..CreateWorkerRequestView::open()
            },
            "ワーカーを作成しました: "@ + name,
            now,
        )
    }

    /// Asking for another name of the selected worker.
    pub open spec fn renaming(self, now: i128) -> AppView {
        match self.selected_worker() {
            Some(worker) => AppView {
                input_mode: Some(
                    InputModeView::RenameWorker {
                        buffer: seq![],
                        cursor: 0,
                        worker_id: worker.snapshot.id,
                    },
                ),
                ..self
            },
            None => self.noted("ワーカーが選択されていません"@, now),
        }
    }

    /// With another name asked for, and a note of how that went.
    pub open spec fn renamed(self, id: WorkerId, new_name: Seq<char>, now: i128) -> AppView {
        self.commanding_noted(
            WorkerCommandView::Rename { id, new_name },
            "ワーカー名を変更しました: "@ + new_name,
            "ワーカー名の変更に失敗しました: "@,
            HandleError::Rename,
            now,
        )
    }

    /// Whether a worker is archived.
    pub open spec fn archived(self, id: WorkerId) -> bool {
        match self.find(id) {
            Some(i) => self.workers[i].snapshot.status == WorkerStatus::Archived,
            None => false,
        }
    }

    /// With the selected worker deleted: of an archived one only what is kept of it.
    pub open spec fn deleting(self, now: i128) -> AppView {
        match self.selected_worker() {
            Some(worker) => {
                let id = worker.snapshot.id;
                if self.archived(id) {
                    self.wanting(
                        AppEffectView::DeleteArchive {
                            id,
                            name: self.workers[self.find(id)->0].snapshot.name,
                        },
                    )
                } else if self.manager.open {
                    self.commanding(WorkerCommandView::Delete { id })
                } else {
                    self.noted(
                        "ワーカー削除に失敗しました ("@ + id_text(id) + "): "@
                            + HandleError::Deletion.text(),
                        now,
                    )
                }
            },
            None => self,
        }
    }

    /// With what was kept of an archived worker deleted, or a note of why it was not.
    pub open spec fn archive_deleted(
        self,
        id: WorkerId,
        error: Option<Seq<char>>,
        now: i128,
    ) -> AppView {
        match error {
            Some(e) => self.noted("アーカイブ削除に失敗しました: "@ + e, now),
            None => match self.find(id) {
                Some(i) => AppView { workers: self.workers.remove(i), ..self }.noted(
                    "アーカイブを削除しました: "@ + self.workers[i].snapshot.name,
                    now,
                ).clamped(),
                None => self,
            },
        }
    }

    /// With the selected worker started over, unless it is archived.
    pub open spec fn restarting(self, now: i128) -> AppView {
        match self.selected_worker() {
            Some(worker) => {
                let id = worker.snapshot.id;
                if self.archived(id) {
                    self.noted("アーカイブされたワーカーは再起動できません"@, now)
                } else if self.manager.open {
                    self.commanding(WorkerCommandView::Restart { id })
                } else {
                    self.noted(
                        "ワーカー再起動に失敗しました ("@ + id_text(id) + "): "@
                            + HandleError::Restart.text(),
                        now,
                    )
                }
            },
            None => self,
        }
    }

    /// With the log shown or hidden; it opens on the overview, at the start.
    pub open spec fn logs_toggled(self) -> AppView {
        if self.show_logs {
            AppView { show_logs: false, ..self }
        } else {
            AppView {
                show_logs: true,
                log_scroll: 0,
                log_view_mode: LogViewMode::Overview,
                selected_step: 0,
                ..self
            }
        }
    }

    /// The last line that a log can be scrolled to.
    pub open spec fn max_scroll(self) -> usize {
        let count = if self.log_view_mode == LogViewMode::Raw {
            self.log_messages.len()
        } else {
            match self.selected_worker() {
                Some(worker) => worker.logs.len(),
                None => self.log_messages.len(),
            }
        };
        if count == 0 {
            0
        } else {
            (count - 1) as usize
        }
    }

    /// With the log scrolled towards its start, which ends automatic scrolling.
    pub open spec fn scrolled_up(self, by: int) -> AppView {
        AppView {
            log_scroll: if self.log_scroll >= by {
                (self.log_scroll - by) as usize
            } else {
                0
            },
            auto_scroll_logs: false,
            ..self
        }
    }

    /// With the log scrolled one line towards its end; at the end it scrolls automatically.
    pub open spec fn scrolled_down(self) -> AppView {
        let max = self.max_scroll();
        let scroll = if self.log_scroll < max {
            (self.log_scroll + 1) as usize
        } else {
            self.log_scroll
        };
        AppView {
            log_scroll: scroll,
            auto_scroll_logs: self.auto_scroll_logs || scroll >= max,
            ..self
        }
    }

    /// With the log scrolled ten lines towards its end; at the end it scrolls automatically.
    pub open spec fn paged_down(self) -> AppView {
        let max = self.max_scroll();
        let scroll = if self.log_scroll + 10 < max {
            (self.log_scroll + 10) as usize
        } else {
            max
        };
        AppView {
            log_scroll: scroll,
            auto_scroll_logs: self.auto_scroll_logs || scroll >= max,
            ..self
        }
    }

    /// With the log at its end, scrolling automatically.
    pub open spec fn scrolled_to_end(self) -> AppView {
        AppView { log_scroll: self.max_scroll(), auto_scroll_logs: true, ..self }
    }

    /// With all but the last four lines of the action log dropped, and a note of it.
    pub open spec fn compacted(self, now: i128) -> AppView {
        AppView { log_messages: model::most_recent(self.log_messages, 4), ..self }.noted(
            "アクションログを圧縮しました"@,
            now,
        )
    }

    /// With automatic scrolling switched on or off, and a note of it.
    pub open spec fn auto_scroll_toggled(self, now: i128) -> AppView {
        AppView { auto_scroll_logs: !self.auto_scroll_logs, ..self }.noted(
            "ログの自動スクロール: "@ + (if self.auto_scroll_logs {
                "OFF"@
            } else {
                "ON"@
            }),
            now,
        )
    }

    /// With another tab of the log view, from its start; the detail needs a step to show.
    pub open spec fn tab_switched(self, mode: LogViewMode) -> AppView {
        if mode == LogViewMode::Detail {
            match self.selected_worker() {
                Some(worker) => if worker.structured_logs.len() > 0 {
                    AppView {
                        selected_step: if self.selected_step < worker.structured_logs.len() - 1 {
                            self.selected_step
                        } else {
                            (worker.structured_logs.len() - 1) as usize
                        },
                        log_view_mode: mode,
                        log_scroll: 0,
                        ..self
                    }
                } else {
                    AppView { log_scroll: 0, ..self }
                },
                None => AppView { log_scroll: 0, ..self },
            }
        } else {
            AppView { log_view_mode: mode, log_scroll: 0, ..self }
        }
    }

    /// With the next step selected, where there is one.
    pub open spec fn step_down(self) -> AppView {
        match self.selected_worker() {
            Some(worker) => if worker.structured_logs.len() > 0 {
                AppView {
                    selected_step: if self.selected_step + 1 < worker.structured_logs.len() {
                        (self.selected_step + 1) as usize
                    } else {
                        (worker.structured_logs.len() - 1) as usize
                    },
                    ..self
                }
            } else {
                self
            },
            None => self,
        }
    }

    /// On the detail of the selected step, where there is one.
    pub open spec fn entering_detail(self) -> AppView {
        match self.selected_worker() {
            Some(worker) => if self.selected_step < worker.structured_logs.len() {
                AppView { log_view_mode: LogViewMode::Detail, log_scroll: 0, ..self }
            } else {
                self
            },
            None => self,
        }
    }

    /// With the next workflow in use, and a note of it.
    pub open spec fn workflow_cycled(self, now: i128) -> AppView {
        if self.workflows.len() == 0 {
            self
        } else {
            let idx = ((self.selected_workflow_idx + 1) % self.workflows.len() as int) as usize;
            let next = AppView { selected_workflow_idx: idx, ..self };
            let description = match self.workflows[idx as int].description {
                Some(d) => d,
                None => "説明なし"@,
            };
            next.noted(
                "使用するワークフローを '"@ + next.workflow_name() + "' に切り替えました ("@
                    + description + ")"@,
                now,
            )
        }
    }

    /// With the worktrees to choose from, or a note of why there are none.
    pub open spec fn choosing_worktree(
        self,
        listed: Result<Seq<ExistingWorktreeView>, Seq<char>>,
        now: i128,
    ) -> AppView {
        match listed {
            Ok(worktrees) => if worktrees.len() == 0 {
                self.noted("既存のworktreeが見つかりませんでした"@, now)
            } else {
                AppView {
                    input_mode: Some(InputModeView::WorktreeSelection { worktrees, selected: 0 }),
                    ..self
                }
            },
            Err(e) => self.noted("worktreeの一覧取得に失敗しました: "@ + e, now),
        }
    }

    /// With a worker asked for that works in an existing worktree.
    pub open spec fn created_in_worktree(
        self,
        path: Seq<char>,
        branch: Seq<char>,
        now: i128,
    ) -> AppView {
        self.creating(
            CreateWorkerRequestView {
                workflow: self.chosen_workflow(),
                existing_worktree: Some((path, branch)),
                ..CreateWorkerRequestView::open()
            },
            "既存worktree '"@ + path + "'でワーカーを作成しました"@,
            now,
        )
    }

    /// With the selected worker to be run in the terminal, unless it is archived.
    pub open spec fn going_interactive(self, now: i128) -> AppView {
        match self.selected_worker() {
            Some(selected) => match self.find(selected.snapshot.id) {
                Some(i) => {
                    let snapshot = self.workers[i].snapshot;
                    if snapshot.status == WorkerStatus::Archived {
                        self.noted(
                            "アーカイブされたワーカーではインタラクティブモードを使用できません"@,
                            now,
                        )
                    } else {
                        AppView {
                            pending_interactive_mode: Some(
                                InteractiveRequestView {
                                    worker_name: snapshot.name,
                                    worktree_path: paths::joined(self.repo_root, snapshot.worktree),
                                    session_id: snapshot.session_id,
                                },
                            ),
                            ..self
                        }
                    }
                },
                None => self,
            },
            None => self.noted("ワーカーを選択してください"@, now),
        }
    }

    /// With a prompt sent: to the selected worker, unless a new one is to be made or none is
    /// selected. Nothing goes to an archived worker.
    pub open spec fn submitted(
        self,
        prompt: Seq<char>,
        force_new: bool,
        mode: Option<Seq<char>>,
        worker_name: Option<Seq<char>>,
        now: i128,
    ) -> AppView {
        let trimmed = text::trimmed(prompt);
        if trimmed.len() == 0 {
            self.noted("空の指示は送信されませんでした"@, now)
        } else {
            match self.selected_worker() {
                Some(worker) if !force_new => {
                    let id = worker.snapshot.id;
                    if worker.snapshot.status == WorkerStatus::Archived {
                        self.noted("アーカイブされたワーカーには追加指示を送信できません"@, now)
                    } else {
                        self.commanding_noted(
                            WorkerCommandView::Continue {
                                id,
                                prompt: trimmed,
                                permission_mode: mode,
                            },
                            "追加指示を送信しました (worker-"@ + text::decimal(id.0 as nat) + ", "@
                                + helpers::mode_label(mode) + "): "@ + trimmed,
                            "追加指示の送信に失敗しました: "@,
                            HandleError::Continuation,
                            now,
                        )
                    }
                },
                _ => self.commanding_noted(
                    WorkerCommandView::Create(
                        CreateWorkerRequestView {
                            free_prompt: Some(trimmed),
                            permission_mode: mode,
                            name: worker_name,
                            ..CreateWorkerRequestView::open()
                        },
                    ),
                    "自由指示を送信しました ("@ + helpers::mode_label(mode) + "): "@ + trimmed,
                    "自由指示の作成に失敗しました: "@,
                    HandleError::Creation,
                    now,
                ),
            }
        }
    }

    /// With a worker selected and the log view at its start.
    pub open spec fn moved_to(self, selected: usize) -> AppView {
        AppView { selected, selected_step: 0, log_scroll: 0, ..self }
    }

    /// With the next worker selected, the last one staying selected.
    pub open spec fn selected_next(self) -> AppView {
        let count = self.visible().len();
        if count == 0 {
            AppView { selected: 0, ..self }
        } else if self.selected + 1 < count {
            self.moved_to((self.selected + 1) as usize)
        } else {
            self.moved_to((count - 1) as usize)
        }
    }

    /// With the previous worker selected.
    pub open spec fn selected_previous(self) -> AppView {
        if self.selected > 0 {
            self.moved_to((self.selected - 1) as usize)
        } else {
            self
        }
    }

    /// With the last worker selected.
    pub open spec fn selected_last(self) -> AppView {
        let count = self.visible().len();
        self.moved_to(
            if count == 0 {
                0
            } else {
                (count - 1) as usize
            },
        )
    }

    /// The session histories of the selected worker.
    pub open spec fn selected_histories(self) -> Seq<SessionHistoryView> {
        match self.selected_worker() {
            Some(worker) => worker.session_histories,
            None => seq![],
        }
    }

    /// With the session before the selected one selected, where there is one.
    pub open spec fn previous_session(self) -> AppView {
        AppView {
            selected_session: if self.selected_session > 0 {
                (self.selected_session - 1) as usize
            } else {
                0
            },
            ..self
        }
    }

    /// With the session behind the selected one selected, where there is one.
    pub open spec fn next_session(self) -> AppView {
        AppView {
            selected_session: if self.selected_session + 1 < self.selected_histories().len() {
                (self.selected_session + 1) as usize
            } else {
                self.selected_session
            },
            ..self
        }
    }

    /// With the session histories of a worker, where it is there.
    pub open spec fn with_histories(
        self,
        id: WorkerId,
        histories: Seq<SessionHistoryView>,
    ) -> AppView {
        match self.find(id) {
            Some(i) => AppView {
                workers: self.workers.update(
                    i,
                    WorkerViewModel { session_histories: histories, ..self.workers[i] },
                ),
                ..self
            },
            None => self,
        }
    }

    /// With the session histories shown or hidden; they open at the start.
    pub open spec fn session_history_toggled(self) -> AppView {
        if self.show_session_history {
            AppView { show_session_history: false, ..self }
        } else {
            AppView {
                show_session_history: true,
                session_history_scroll: 0,
                selected_session: 0,
                ..self
            }
        }
    }
}

/// The tab that follows a tab of the log view.
pub open spec fn next_tab(mode: LogViewMode) -> LogViewMode {
    match mode {
        LogViewMode::Overview => LogViewMode::Detail,
        LogViewMode::Detail => LogViewMode::Raw,
        LogViewMode::Raw => LogViewMode::Overview,
    }
}

/// The tab before a tab of the log view.
pub open spec fn previous_tab(mode: LogViewMode) -> LogViewMode {
    match mode {
        LogViewMode::Overview => LogViewMode::Raw,
        LogViewMode::Raw => LogViewMode::Detail,
        LogViewMode::Detail => LogViewMode::Overview,
    }
}

/// The tabs go round: one back undoes one on, and three on lead back.
pub proof fn tabs_go_round(mode: LogViewMode)
    ensures
        previous_tab(next_tab(mode)) == mode,
        next_tab(previous_tab(mode)) == mode,
        next_tab(next_tab(next_tab(mode))) == mode,
{
}

impl App {
    /// Asks for the name of a worker that runs the selected workflow.
    pub fn enqueue_create_worker(&mut self)
        ensures
            final(self).deep_view() == old(self).deep_view().naming_workflow_worker(),
    {
        let workflow_name = self.selected_workflow_name();
        let buffer = String::new();
        assert(buffer@ =~= seq![]);
        self.input_mode = Some(
            InputMode::NameInput {
                buffer,
                cursor: 0,
                workflow_name,
                next_action: NameInputNextAction::CreateWithWorkflow,
            },
        );
    }

    fn selected_workflow_name(&self) -> (r: Option<String>)
        ensures
            r.deep_view() == self.deep_view().chosen_workflow(),
    {
        if self.selected_workflow_idx < self.workflows.len() {
            Some(self.workflows[self.selected_workflow_idx].name.clone())
        } else {
            None
        }
    }

    /// Asks for the name of a worker that runs a prompt.
    pub fn show_name_input_for_free_prompt(&mut self)
        ensures
            final(self).deep_view() == old(self).deep_view().naming_prompt_worker(),
    {
        let buffer = String::new();
        assert(buffer@ =~= seq![]);
        self.input_mode = Some(
            InputMode::NameInput {
                buffer,
                cursor: 0,
                workflow_name: None,
                next_action: NameInputNextAction::CreateWithFreePrompt,
            },
        );
    }

    /// Asks for a prompt.
    pub fn show_free_prompt(&mut self, force_new: bool, worker_name: Option<String>)
        ensures
            final(self).deep_view() == old(self).deep_view().prompting(
                force_new,
                worker_name.deep_view(),
            ),
    {
        let buffer = String::new();
        assert(buffer@ =~= seq![]);
        self.input_mode = Some(
            InputMode::FreePrompt {
                buffer,
                cursor: 0,
                force_new,
                permission_mode: None,
                worker_name,
            },
        );
    }

    fn create(&mut self, request: CreateWorkerRequest, success: String, now: i128)
        ensures
            final(self).deep_view() == old(self).deep_view().creating(
                request.deep_view(),
                success@,
                now,
            ),
    {
        match self.manager.create_worker(request) {
            Ok(()) => {
                self.push_log(success, now);
            },
            Err(e) => {
                self.push_log(
                    cat2("ワーカー作成に失敗しました: ", e.message().as_str()),
                    now,
                );
            },
        }
    }

    /// Asks for a worker with a default name.
    pub fn create_worker_with_default_name(&mut self, workflow_name: Option<String>, now: i128)
        ensures
            final(self).deep_view() == old(self).deep_view().created_by_default(
                workflow_name.deep_view(),
                now,
            ),
    {
        let mut request = CreateWorkerRequest::default();
        request.workflow = workflow_name;
        self.create(request, "ワーカーを作成しました（デフォルト名）".to_owned(), now);
    }

    /// Asks for a worker with a name of the user.
    pub fn create_worker_with_name(
        &mut self,
        name: String,
        workflow_name: Option<String>,
        now: i128,
    )
        ensures
            final(self).deep_view() == old(self).deep_view().created_named(
                name@,
                workflow_name.deep_view(),
                now,
            ),
    {
        let mut request = CreateWorkerRequest::default();
        request.workflow = workflow_name;
        let success = cat2("ワーカーを作成しました: ", name.as_str());
        request.name = Some(name);
        self.create(request, success, now);
    }

    /// Asks for another name of the selected worker.
    pub fn show_rename_modal(&mut self, now: i128)
        ensures
            final(self).deep_view() == old(self).deep_view().renaming(now),
    {
        match self.selected_worker_id() {
            Some(worker_id) => {
                let buffer = String::new();
                assert(buffer@ =~= seq![]);
                self.input_mode = Some(InputMode::RenameWorker { buffer, cursor: 0, worker_id });
            },
            None => {
                self.push_log("ワーカーが選択されていません".to_owned(), now);
            },
        }
    }

    /// Sends another name of a worker to the manager.
    pub fn rename_worker(&mut self, worker_id: WorkerId, new_name: String, now: i128)
        ensures
            final(self).deep_view() == old(self).deep_view().renamed(worker_id, new_name@, now),
    {
        match self.manager.rename_worker(worker_id, new_name.clone()) {
            Ok(()) => {
                self.push_log(cat2("ワーカー名を変更しました: ", new_name.as_str()), now);
            },
            Err(e) => {
                self.push_log(
                    cat2("ワーカー名の変更に失敗しました: ", e.message().as_str()),
                    now,
                );
            },
        }
    }

    fn is_archived(&self, id: WorkerId) -> (r: bool)
        ensures
            r == self.deep_view().archived(id),
    {
        match find_view(&self.workers, id) {
            Some(i) => self.workers[i].snapshot.status == WorkerStatus::Archived,
            None => false,
        }
    }

    /// Deletes the selected worker: of an archived one only what is kept of it.
    pub fn enqueue_delete_worker(&mut self, now: i128)
        ensures
            final(self).deep_view() == old(self).deep_view().deleting(now),
    {
        if let Some(id) = self.selected_worker_id() {
            if self.is_archived(id) {
                if let Some(name) = self.worker_name_by_id(id) {
                    self.want(AppEffect::DeleteArchive { id, name });
                }
                return ;
            }
            if let Err(e) = self.manager.delete_worker(id) {
                self.push_log(
                    cat4(
                        "ワーカー削除に失敗しました (",
                        text_of_id(id).as_str(),
                        "): ",
                        e.message().as_str(),
                    ),
                    now,
                );
            }
        }
    }

    /// Takes in that what was kept of an archived worker has been deleted, or why not.
    pub fn archive_deleted(&mut self, id: WorkerId, error: Option<String>, now: i128)
        ensures
            final(self).deep_view() == old(self).deep_view().archive_deleted(
                id,
                error.deep_view(),
                now,
            ),
    {
        match error {
            Some(e) => {
                self.push_log(cat2("アーカイブ削除に失敗しました: ", e.as_str()), now);
            },
            None => {
                let ghost before = self.workers.deep_view();
                if let Some(i) = find_view(&self.workers, id) {
                    let worker = self.workers.remove(i);
                    assert(self.workers.deep_view() =~= before.remove(i as int));
                    self.push_log(
                        cat2("アーカイブを削除しました: ", worker.snapshot.name.as_str()),
                        now,
                    );
                    self.clamp_selection();
                }
            },
        }
    }

    /// Starts the selected worker over, unless it is archived.
    pub fn enqueue_restart_worker(&mut self, now: i128)
        ensures
            final(self).deep_view() == old(self).deep_view().restarting(now),
    {
        if let Some(id) = self.selected_worker_id() {
            if self.is_archived(id) {
                self.push_log("アーカイブされたワーカーは再起動できません".to_owned(), now);
                return ;
            }
            if let Err(e) = self.manager.restart_worker(id) {
                self.push_log(
                    cat4(
                        "ワーカー再起動に失敗しました (",
                        text_of_id(id).as_str(),
                        "): ",
                        e.message().as_str(),
                    ),
                    now,
                );
            }
        }
    }

    /// Shows or hides the help.
    pub fn toggle_help(&mut self)
        ensures
            final(self).deep_view() == (AppView {
                show_help: !old(self).show_help,
                ..old(self).deep_view()
            }),
    {
        self.show_help = !self.show_help;
    }

    /// Shows or hides the log.
    pub fn toggle_logs(&mut self)
        ensures
            final(self).deep_view() == old(self).deep_view().logs_toggled(),
    {
        self.show_logs = !self.show_logs;
        if self.show_logs {
            self.log_scroll = 0;
            self.log_view_mode = LogViewMode::Overview;
            self.selected_step = 0;
        }
    }

    /// Returns the last line that the log can be scrolled to.
    pub fn get_log_max_scroll(&self) -> (r: usize)
        ensures
            r == self.deep_view().max_scroll(),
    {
        let count: usize = match self.log_view_mode {
            LogViewMode::Raw => self.log_messages.len(),
            _ => match self.selected_worker_view() {
                Some(view) => view.logs.len(),
                None => self.log_messages.len(),
            },
        };
        if count == 0 {
            0
        } else {
            count - 1
        }
    }

    /// Scrolls the log one line up.
    pub fn scroll_log_up(&mut self)
        ensures
            final(self).deep_view() == old(self).deep_view().scrolled_up(1),
    {
        self.log_scroll = if self.log_scroll >= 1 {
            self.log_scroll - 1
        } else {
            0
        };
        self.auto_scroll_logs = false;
    }

    /// Scrolls the log one line down.
    pub fn scroll_log_down(&mut self)
        ensures
            final(self).deep_view() == old(self).deep_view().scrolled_down(),
    {
        let max_scroll = self.get_log_max_scroll();
        if self.log_scroll < max_scroll {
            self.log_scroll = self.log_scroll + 1;
        }
        if self.log_scroll >= max_scroll {
            self.auto_scroll_logs = true;
        }
    }

    /// Scrolls the log to its start.
    pub fn scroll_log_home(&mut self)
        ensures
            final(self).deep_view() == (AppView {
                log_scroll: 0,
                auto_scroll_logs: false,
                ..old(self).deep_view()
            }),
    {
        self.log_scroll = 0;
        self.auto_scroll_logs = false;
    }

    /// Scrolls the log to its end.
    pub fn scroll_log_end(&mut self)
        ensures
            final(self).deep_view() == old(self).deep_view().scrolled_to_end(),
    {
        self.log_scroll = self.get_log_max_scroll();
        self.auto_scroll_logs = true;
    }

    /// Scrolls the log ten lines up.
    pub fn scroll_log_page_up(&mut self)
        ensures
            final(self).deep_view() == old(self).deep_view().scrolled_up(10),
    {
        self.log_scroll = if self.log_scroll >= 10 {
            self.log_scroll - 10
        } else {
            0
        };
        self.auto_scroll_logs = false;
    }

    /// Scrolls the log ten lines down.
    pub fn scroll_log_page_down(&mut self)
        ensures
            final(self).deep_view() == old(self).deep_view().paged_down(),
    {
        let max_scroll = self.get_log_max_scroll();
        self.log_scroll = if max_scroll >= 10 && self.log_scroll < max_scroll - 10 {
            self.log_scroll + 10
        } else {
            max_scroll
        };
        if self.log_scroll >= max_scroll {
            self.auto_scroll_logs = true;
        }
    }

    /// Drops all but the last four lines of the action log.
    pub fn compact_logs(&mut self, now: i128)
        ensures
            final(self).deep_view() == old(self).deep_view().compacted(now),
    {
        drop_oldest(&mut self.log_messages, 4);
        self.push_log("アクションログを圧縮しました".to_owned(), now);
    }

    /// Switches automatic scrolling on or off.
    pub fn toggle_auto_scroll(&mut self, now: i128)
        ensures
            final(self).deep_view() == old(self).deep_view().auto_scroll_toggled(now),
    {
        self.auto_scroll_logs = !self.auto_scroll_logs;
        let status = if self.auto_scroll_logs {
            "ON"
        } else {
            "OFF"
        };
        self.push_log(cat2("ログの自動スクロール: ", status), now);
    }

    fn switch_log_tab(&mut self, mode: LogViewMode)
        ensures
            final(self).deep_view() == old(self).deep_view().tab_switched(mode),
    {
        if mode == LogViewMode::Detail {
            let steps: usize = match self.selected_worker_view() {
                Some(view) => view.structured_logs.len(),
                None => 0,
            };
            if steps > 0 {
                if self.selected_step >= steps - 1 {
                    self.selected_step = steps - 1;
                }
                self.log_view_mode = mode;
            }
        } else {
            self.log_view_mode = mode;
        }
        self.log_scroll = 0;
    }

    /// Shows the next tab of the log view.
    pub fn switch_log_tab_next(&mut self)
        ensures
            final(self).deep_view() == old(self).deep_view().tab_switched(
                next_tab(old(self).log_view_mode),
            ),
    {
        let mode = match self.log_view_mode {
            LogViewMode::Overview => LogViewMode::Detail,
            LogViewMode::Detail => LogViewMode::Raw,
            LogViewMode::Raw => LogViewMode::Overview,
        };
        self.switch_log_tab(mode);
    }

    /// Shows the previous tab of the log view.
    pub fn switch_log_tab_prev(&mut self)
        ensures
            final(self).deep_view() == old(self).deep_view().tab_switched(
                previous_tab(old(self).log_view_mode),
            ),
    {
        let mode = match self.log_view_mode {
            LogViewMode::Overview => LogViewMode::Raw,
            LogViewMode::Raw => LogViewMode::Detail,
            LogViewMode::Detail => LogViewMode::Overview,
        };
        self.switch_log_tab(mode);
    }

    /// Selects the previous step.
    pub fn select_step_up(&mut self)
        ensures
            final(self).deep_view() == (AppView {
                selected_step: if old(self).selected_step > 0 {
                    (old(self).selected_step - 1) as usize
                } else {
                    0
                },
                ..old(self).deep_view()
            }),
    {
        if self.selected_step > 0 {
            self.selected_step = self.selected_step - 1;
        }
    }

    /// Selects the next step, where there is one.
    pub fn select_step_down(&mut self)
        requires
            old(self).selected_step < usize::MAX,
        ensures
            final(self).deep_view() == old(self).deep_view().step_down(),
    {
        let steps: usize = match self.selected_worker_view() {
            Some(view) => view.structured_logs.len(),
            None => 0,
        };
        if steps > 0 {
            let next: usize = self.selected_step + 1;
            self.selected_step = if next < steps {
                next
            } else {
                steps - 1
            };
        }
    }

    /// Shows the detail of the selected step, where there is one.
    pub fn enter_detail_from_overview(&mut self)
        ensures
            final(self).deep_view() == old(self).deep_view().entering_detail(),
    {
        let steps: usize = match self.selected_worker_view() {
            Some(view) => view.structured_logs.len(),
            None => 0,
        };
        if self.selected_step < steps {
            self.log_view_mode = LogViewMode::Detail;
            self.log_scroll = 0;
        }
    }

    /// Shows the overview.
    pub fn back_to_overview(&mut self)
        ensures
            final(self).deep_view() == (AppView {
                log_view_mode: LogViewMode::Overview,
                log_scroll: 0,
                ..old(self).deep_view()
            }),
    {
        self.log_view_mode = LogViewMode::Overview;
        self.log_scroll = 0;
    }

    /// Uses the next workflow.
    pub fn cycle_workflow(&mut self, now: i128)
        requires
            old(self).selected_workflow_idx < usize::MAX,
        ensures
            final(self).deep_view() == old(self).deep_view().workflow_cycled(now),
    {
        let count: usize = self.workflows.len();
        if count == 0 {
            return ;
        }
        let idx: usize = (self.selected_workflow_idx + 1) % count;
        self.selected_workflow_idx = idx;
        let description = match &self.workflows[idx].description {
            Some(d) => d.as_str(),
            None => "説明なし",
        };
        let message = cat5(
            "使用するワークフローを '",
            self.current_workflow_name(),
            "' に切り替えました (",
            description,
            ")",
        );
        self.push_log(message, now);
    }

    /// Offers the ways to a new worker.
    pub fn show_create_selection(&mut self)
        ensures
            final(self).deep_view() == (AppView {
                input_mode: Some(InputModeView::CreateWorkerSelection { selected: 0 }),
                ..old(self).deep_view()
            }),
    {
        self.input_mode = Some(InputMode::CreateWorkerSelection { selected: 0 });
    }

    /// Offers the worktrees that were listed.
    pub fn show_worktree_selection(
        &mut self,
        listed: Result<Vec<ExistingWorktree>, String>,
        now: i128,
    )
        ensures
            final(self).deep_view() == old(self).deep_view().choosing_worktree(
                match listed {
                    Ok(worktrees) => Ok(worktrees.deep_view()),
                    Err(e) => Err(e@),
                },
                now,
            ),
    {
        match listed {
            Ok(worktrees) => {
                if worktrees.len() == 0 {
                    self.push_log("既存のworktreeが見つかりませんでした".to_owned(), now);
                    return ;
                }
                self.input_mode = Some(InputMode::WorktreeSelection { worktrees, selected: 0 });
            },
            Err(e) => {
                self.push_log(cat2("worktreeの一覧取得に失敗しました: ", e.as_str()), now);
            },
        }
    }

    /// Asks for a worker that works in an existing worktree.
    pub fn enqueue_create_worker_with_worktree(
        &mut self,
        worktree_path: String,
        branch: String,
        now: i128,
    )
        ensures
            final(self).deep_view() == old(self).deep_view().created_in_worktree(
                worktree_path@,
                branch@,
                now,
            ),
    {
        let mut request = CreateWorkerRequest::default();
        request.workflow = self.selected_workflow_name();
        let success = cat3(
            "既存worktree '",
            worktree_path.as_str(),
            "'でワーカーを作成しました",
        );
        request.existing_worktree = Some((worktree_path, branch));
        self.create(request, success, now);
    }

    /// Asks for a prompt for the selected worker, or for a new one.
    pub fn start_free_prompt(&mut self)
        ensures
            final(self).deep_view() == old(self).deep_view().prompting(false, None),
    {
        self.show_free_prompt(false, None);
    }

    /// Has the selected worker run in the terminal, unless it is archived.
    pub fn start_interactive_prompt(&mut self, now: i128)
        ensures
            final(self).deep_view() == old(self).deep_view().going_interactive(now),
    {
        match self.selected_worker_id() {
            Some(id) => {
                if let Some(i) = find_view(&self.workers, id) {
                    if self.workers[i].snapshot.status == WorkerStatus::Archived {
                        self.push_log(
                            "アーカイブされたワーカーではインタラクティブモードを使用できません".to_owned(),
                            now,
                        );
                        return ;
                    }
                    let snapshot = self.workers[i].snapshot.clone();
                    self.pending_interactive_mode = Some(
                        InteractiveRequest {
                            worker_name: snapshot.name,
                            worktree_path: paths::join(
                                self.repo_root.as_str(),
                                snapshot.worktree.as_str(),
                            ),
                            session_id: snapshot.session_id,
                        },
                    );
                }
            },
            None => {
                self.push_log("ワーカーを選択してください".to_owned(), now);
            },
        }
    }

    /// Sends a prompt: to the selected worker, unless a new one is to be made or none is
    /// selected.
    pub fn submit_free_prompt(
        &mut self,
        prompt: String,
        force_new: bool,
        permission_mode: Option<String>,
        worker_name: Option<String>,
        now: i128,
    )
        ensures
            final(self).deep_view() == old(self).deep_view().submitted(
                prompt@,
                force_new,
                permission_mode.deep_view(),
                worker_name.deep_view(),
                now,
            ),
    {
        let trimmed = trim(prompt.as_str());
        if trimmed.as_str().is_empty() {
            self.push_log("空の指示は送信されませんでした".to_owned(), now);
            return ;
        }
        let mode = permission_mode_label(&permission_mode).to_owned();
        if !force_new {
            if let Some(i) = self.selected_index() {
                if self.workers[i].snapshot.status == WorkerStatus::Archived {
                    self.push_log(
                        "アーカイブされたワーカーには追加指示を送信できません".to_owned(),
                        now,
                    );
                    return ;
                }
                let id = self.workers[i].snapshot.id;
                match self.manager.continue_worker(
                    id,
                    trimmed.clone(),
                    permission_mode.duplicate(),
                ) {
                    Ok(()) => {
                        let message = cat6(
                            "追加指示を送信しました (worker-",
                            usize_text(id.0).as_str(),
                            ", ",
                            mode.as_str(),
                            "): ",
                            trimmed.as_str(),
                        );
                        self.push_log(message, now);
                    },
                    Err(e) => {
                        self.push_log(
                            cat2("追加指示の送信に失敗しました: ", e.message().as_str()),
                            now,
                        );
                    },
                }
                return ;
            }
        }
        let mut request = CreateWorkerRequest::default();
        request.free_prompt = Some(trimmed.clone());
        request.permission_mode = permission_mode;
        request.name = worker_name;
        match self.manager.create_worker(request) {
            Ok(()) => {
                let message = cat4(
                    "自由指示を送信しました (",
                    mode.as_str(),
                    "): ",
                    trimmed.as_str(),
                );
                self.push_log(message, now);
            },
            Err(e) => {
                self.push_log(
                    cat2("自由指示の作成に失敗しました: ", e.message().as_str()),
                    now,
                );
            },
        }
    }

    /// Selects the next worker.
    pub fn select_next(&mut self)
        requires
            old(self).selected < usize::MAX,
        ensures
            final(self).deep_view() == old(self).deep_view().selected_next(),
    {
        let count: usize = self.visible_indices().len();
        if count == 0 {
            self.selected = 0;
            return ;
        }
        let next: usize = self.selected + 1;
        self.selected = if next < count {
            next
        } else {
            count - 1
        };
        self.selected_step = 0;
        self.log_scroll = 0;
    }

    /// Selects the previous worker.
    pub fn select_previous(&mut self)
        ensures
            final(self).deep_view() == old(self).deep_view().selected_previous(),
    {
        if self.selected > 0 {
            self.selected = self.selected - 1;
            self.selected_step = 0;
            self.log_scroll = 0;
        }
    }

    /// Selects the first worker.
    pub fn select_first(&mut self)
        ensures
            final(self).deep_view() == old(self).deep_view().moved_to(0),
    {
        self.selected = 0;
        self.selected_step = 0;
        self.log_scroll = 0;
    }

    /// Selects the last worker.
    pub fn select_last(&mut self)
        ensures
            final(self).deep_view() == old(self).deep_view().selected_last(),
    {
        let count: usize = self.visible_indices().len();
        self.selected = if count == 0 {
            0
        } else {
            count - 1
        };
        self.selected_step = 0;
        self.log_scroll = 0;
    }

    /// Shows or hides the session histories.
    pub fn toggle_session_history(&mut self)
        ensures
            final(self).deep_view() == old(self).deep_view().session_history_toggled(),
    {
        self.show_session_history = !self.show_session_history;
        if self.show_session_history {
            self.session_history_scroll = 0;
            self.selected_session = 0;
        }
    }

    /// Selects the session before the selected one.
    pub fn select_previous_session(&mut self)
        ensures
            final(self).deep_view() == old(self).deep_view().previous_session(),
    {
        if self.selected_session > 0 {
            self.selected_session = self.selected_session - 1;
        }
    }

    /// Selects the session behind the selected one.
    pub fn select_next_session(&mut self)
        ensures
            final(self).deep_view() == old(self).deep_view().next_session(),
    {
        let count: usize = match self.selected_worker_view() {
            Some(view) => view.session_histories.len(),
            None => 0,
        };
        assert(count == self.deep_view().selected_histories().len());
        if count > 0 && self.selected_session < count - 1 {
            self.selected_session = self.selected_session + 1;
        }
    }

    /// Sets the session histories of a worker.
    pub fn set_worker_session_histories(&mut self, id: WorkerId, histories: Vec<SessionHistory>)
        ensures
            final(self).deep_view() == old(self).deep_view().with_histories(
                id,
                histories.deep_view(),
            ),
    {
        if let Some(i) = find_view(&self.workers, id) {
            let ghost before = self.workers.deep_view();
            let view = &mut self.workers[i];
            view.set_session_histories(histories);
            assert(self.workers.deep_view() =~= before.update(
                i as int,
                WorkerViewModel { session_histories: histories.deep_view(), ..before[i as int] },
            ));
        }
    }

    /// Scrolls the session histories one line up.
    pub fn scroll_session_history_up(&mut self)
        ensures
            final(self).deep_view() == (AppView {
                session_history_scroll: if old(self).session_history_scroll > 0 {
                    (old(self).session_history_scroll - 1) as usize
                } else {
                    0
                },
                ..old(self).deep_view()
            }),
    {
        if self.session_history_scroll > 0 {
            self.session_history_scroll = self.session_history_scroll - 1;
        }
    }

    /// Scrolls the session histories one line down.
    pub fn scroll_session_history_down(&mut self)
        requires
            old(self).session_history_scroll < usize::MAX,
        ensures
            final(self).deep_view() == (AppView {
                session_history_scroll: (old(self).session_history_scroll + 1) as usize,
                ..old(self).deep_view()
            }),
    {
        self.session_history_scroll = self.session_history_scroll + 1;
    }
}

fn text_of_id(id: WorkerId) -> (r: String)
    ensures
        r@ == id_text(id),
{
    cat3("WorkerId(", usize_text(id.0).as_str(), ")")
}

/// Drops the oldest lines of a queue until no more than `limit` are left.
fn drop_oldest(q: &mut VecDeque<String>, limit: usize)
    ensures
        model::queued(*final(q)) == model::most_recent(model::queued(*old(q)), limit as nat),
{
    let ghost all = model::queued(*q);
    while q.len() > limit
        invariant
            q@.len() <= all.len(),
            q@.len() >= limit || q@.len() == all.len(),
            model::queued(*q) == all.skip(all.len() - q@.len()),
        decreases q@.len(),
    {
        let ghost before = model::queued(*q);
        let _oldest = q.pop_front();
        assert(model::queued(*q) =~= before.skip(1));
        assert(before.skip(1) =~= all.skip(all.len() - q@.len()));
    }
    assert(all.skip(0) =~= all);
}

/// An archived worker is never started over, continued or run in the terminal: no command is
/// sent and no run in the terminal is asked for.
pub proof fn archived_workers_rest(
    app: AppView,
    prompt: Seq<char>,
    mode: Option<Seq<char>>,
    name: Option<Seq<char>>,
    now: i128,
)
    requires
        app.wf(),
        app.selected_worker() matches Some(worker) && worker.snapshot.status
            == WorkerStatus::Archived,
    ensures
        app.restarting(now).manager == app.manager,
        app.deleting(now).manager == app.manager,
        app.submitted(prompt, false, mode, name, now).manager == app.manager,
        app.going_interactive(now).pending_interactive_mode == app.pending_interactive_mode,
{
    let place = app.selected_place()->0;
    let id = app.workers[place].snapshot.id;
    app::visible_are_workers(app.workers, app.status_filter, app.workers.len() as int);
    let ids = app::view_ids(app.workers);
    model::first_index_is_first(ids, id);
    assert(ids[place] == id);
    assert(app.find(id) == Some(place));
}

/// Nothing is sent that nobody takes: with the way to the manager closed no action changes
/// what is on its way.
pub proof fn closed_way_stays_empty(
    app: AppView,
    prompt: Seq<char>,
    force_new: bool,
    mode: Option<Seq<char>>,
    name: Option<Seq<char>>,
    id: WorkerId,
    now: i128,
)
    requires
        !app.manager.open,
    ensures
        app.restarting(now).manager == app.manager,
        app.deleting(now).manager == app.manager,
        app.renamed(id, prompt, now).manager == app.manager,
        app.created_by_default(name, now).manager == app.manager,
        app.created_named(prompt, name, now).manager == app.manager,
        app.submitted(prompt, force_new, mode, name, now).manager == app.manager,
{
}

/// Going through all workflows leads back to the first one.
pub proof fn workflows_go_round(app: AppView, now: i128)
    requires
        app.wf(),
    ensures
        app.workflow_cycled(now).selected_workflow_idx < app.workflows.len(),
        app.selected_workflow_idx + 1 < app.workflows.len()
            ==> app.workflow_cycled(now).selected_workflow_idx == app.selected_workflow_idx + 1,
        app.selected_workflow_idx + 1 == app.workflows.len()
            ==> app.workflow_cycled(now).selected_workflow_idx == 0,
{
    let n = app.workflows.len() as int;
    let i = app.selected_workflow_idx as int;
    if i + 1 < n {
        vstd::arithmetic::div_mod::lemma_small_mod((i + 1) as nat, n as nat);
    } else {
        vstd::arithmetic::div_mod::lemma_mod_self_0(n);
    }
}

/// With an archived worker deleted, or not, everything that is selected is there.
pub proof fn archive_deletions_keep_wf(
    app: AppView,
    id: WorkerId,
    error: Option<Seq<char>>,
    now: i128,
)
    requires
        app.wf(),
    ensures
        app.archive_deleted(id, error, now).wf(),
        error is None ==> app.archive_deleted(id, error, now).find(id) is None,
{
    let ids = app::view_ids(app.workers);
    model::first_index_is_first(ids, id);
    let after = app.archive_deleted(id, error, now);
    if error is None {
        if let Some(i) = app.find(id) {
            let noted = AppView { workers: app.workers.remove(i), ..app }.noted(
                "アーカイブを削除しました: "@ + app.workers[i].snapshot.name,
                now,
            );
            assert(app::view_ids(noted.workers) =~= ids.remove(i));
            app::clamping_selects_visible(noted);
            assert(after == noted.clamped());
        }
        model::first_index_is_first(app::view_ids(after.workers), id);
    }
}

/// With worktrees on offer, or none, everything that is selected is there.
pub proof fn worktree_choices_keep_wf(
    app: AppView,
    listed: Result<Seq<ExistingWorktreeView>, Seq<char>>,
    now: i128,
)
    requires
        app.wf(),
        listed matches Ok(worktrees) ==> worktrees.len() <= usize::MAX,
    ensures
        app.choosing_worktree(listed, now).wf(),
{
}

} // verus!
