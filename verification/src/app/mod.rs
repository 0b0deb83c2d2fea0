//! The dashboard: its state, and what keys and events do to it.
pub mod actions;
pub mod event_handler;
pub mod events;
pub mod interactive;
pub mod key_laws;
pub mod news_laws;
pub mod rendering;
pub mod screen_laws;
pub mod session_laws;
pub mod types;
pub mod typing;
pub mod use_laws;
pub mod worker_view;

use crate::app::types::{
    AppEffect, AppEffectView, InputMode, InputModeView, InteractiveRequest, InteractiveRequestView,
    PermissionPromptState, PermissionPromptStateView, PermissionTrackerEntry,
    PermissionTrackerEntryView,
};
use crate::app::worker_view::{WorkerView, WorkerViewModel};
use crate::clock::{self, timestamp};
use crate::config::{self, find_workflow, Config, ConfigView, Workflow, WorkflowView};
use crate::model::{self, push_line};
use crate::product::{Product, ProductView};
use crate::state::{ActionLogEntry, ActionLogEntryView};
use crate::ui::helpers::{self, format_action_log};
use crate::ui::types::{LogViewMode, AVAILABLE_TOOLS};
use crate::worker::{
    WorkerHandle, WorkerHandleView, WorkerId, WorkerSnapshot, WorkerSnapshotView, WorkerStatus,
};
use std::collections::{HashMap, VecDeque};
use vstd::prelude::*;

verus! {

/// How many lines of the action log are shown.
pub const GLOBAL_LOG_CAPACITY: usize = 64;

/// The dashboard, with what it wants done outside, in order.
pub struct App {
    pub repo_root: String,
    pub product: Product,
    pub manager: WorkerHandle,
    pub workflows: Vec<Workflow>,
    pub selected_workflow_idx: usize,
    pub workers: Vec<WorkerView>,
    pub selected: usize,
    pub show_help: bool,
    pub show_logs: bool,
    pub log_messages: VecDeque<String>,
    pub log_scroll: usize,
    pub status_filter: Option<WorkerStatus>,
    pub input_mode: Option<InputMode>,
    pub log_view_mode: LogViewMode,
    pub selected_step: usize,
    pub animation_frame: usize,
    pub permission_prompt: Option<PermissionPromptState>,
    pub permission_tracker: HashMap<u64, PermissionTrackerEntry>,
    pub pending_interactive_mode: Option<InteractiveRequest>,
    pub auto_scroll_logs: bool,
    pub show_session_history: bool,
    pub session_history_scroll: usize,
    pub selected_session: usize,
    pub effects: Vec<AppEffect>,
}

/// What an [`App`] holds.
#[verifier::ext_equal]
pub struct AppView {
    pub repo_root: Seq<char>,
    pub product: ProductView,
    pub manager: WorkerHandleView,
    pub workflows: Seq<WorkflowView>,
    pub selected_workflow_idx: usize,
    pub workers: Seq<WorkerViewModel>,
    pub selected: usize,
    pub show_help: bool,
    pub show_logs: bool,
    pub log_messages: Seq<Seq<char>>,
    pub log_scroll: usize,
    pub status_filter: Option<WorkerStatus>,
    pub input_mode: Option<InputModeView>,
    pub log_view_mode: LogViewMode,
    pub selected_step: usize,
    pub animation_frame: usize,
    pub permission_prompt: Option<PermissionPromptStateView>,
    pub permission_tracker: Map<u64, PermissionTrackerEntryView>,
    pub pending_interactive_mode: Option<InteractiveRequestView>,
    pub auto_scroll_logs: bool,
    pub show_session_history: bool,
    pub session_history_scroll: usize,
    pub selected_session: usize,
    pub effects: Seq<AppEffectView>,
}

/// What a tracker holds.
pub open spec fn tracker_view(tracker: Map<u64, PermissionTrackerEntry>) -> Map<
    u64,
    PermissionTrackerEntryView,
> {
    tracker.map_values(|entry: PermissionTrackerEntry| entry.deep_view())
}

impl DeepView for App {
    type V = AppView;

    open spec fn deep_view(&self) -> AppView {
        AppView {
            repo_root: self.repo_root@,
            product: self.product.deep_view(),
            manager: self.manager.deep_view(),
            workflows: self.workflows.deep_view(),
            selected_workflow_idx: self.selected_workflow_idx,
            workers: self.workers.deep_view(),
            selected: self.selected,
            show_help: self.show_help,
            show_logs: self.show_logs,
            log_messages: model::queued(self.log_messages),
            log_scroll: self.log_scroll,
            status_filter: self.status_filter,
            input_mode: self.input_mode.deep_view(),
            log_view_mode: self.log_view_mode,
            selected_step: self.selected_step,
            animation_frame: self.animation_frame,
            permission_prompt: self.permission_prompt.deep_view(),
            permission_tracker: tracker_view(self.permission_tracker@),
            pending_interactive_mode: self.pending_interactive_mode.deep_view(),
            auto_scroll_logs: self.auto_scroll_logs,
            show_session_history: self.show_session_history,
            session_history_scroll: self.session_history_scroll,
            selected_session: self.selected_session,
            effects: self.effects.deep_view(),
        }
    }
}

/// Whether a worker passes a filter.
pub open spec fn passes(worker: WorkerViewModel, filter: Option<WorkerStatus>) -> bool {
    match filter {
        None => true,
        Some(status) => worker.snapshot.status == status,
    }
}

/// The places of the workers among the first `n` that pass a filter.
pub open spec fn visible_among(
    workers: Seq<WorkerViewModel>,
    filter: Option<WorkerStatus>,
    n: int,
) -> Seq<usize>
    decreases n,
{
    if n <= 0 {
        seq![]
    } else if passes(workers[n - 1], filter) {
        visible_among(workers, filter, n - 1).push((n - 1) as usize)
    } else {
        visible_among(workers, filter, n - 1)
    }
}

/// The visible workers are some of the workers, in their order.
pub proof fn visible_are_workers(
    workers: Seq<WorkerViewModel>,
    filter: Option<WorkerStatus>,
    n: int,
)
    requires
        0 <= n <= workers.len() <= usize::MAX,
    ensures
        visible_among(workers, filter, n).len() <= n,
        forall|i: int|
            0 <= i < visible_among(workers, filter, n).len() ==> {
                let place = #[trigger] visible_among(workers, filter, n)[i];
                place < n && passes(workers[place as int], filter)
            },
        forall|i: int, j: int|
            0 <= i < j < visible_among(workers, filter, n).len() ==> #[trigger] visible_among(
                workers,
                filter,
                n,
            )[i] < #[trigger] visible_among(workers, filter, n)[j],
        forall|place: int|
            0 <= place < n && passes(#[trigger] workers[place], filter) ==> visible_among(
                workers,
                filter,
                n,
            ).contains(place as usize),
    decreases n,
{
    if n > 0 {
        visible_are_workers(workers, filter, n - 1);
        let before = visible_among(workers, filter, n - 1);
        let all = visible_among(workers, filter, n);
        assert forall|place: int|
            0 <= place < n && passes(#[trigger] workers[place], filter) implies all.contains(
            place as usize,
        ) by {
            if place == n - 1 {
                assert(all[all.len() - 1] == place as usize);
            } else {
                assert(before.contains(place as usize));
                let k = choose|k: int| 0 <= k < before.len() && before[k] == place as usize;
                assert(all[k] == place as usize);
            }
        }
    }
}

/// The numbers of some workers.
pub open spec fn view_ids(workers: Seq<WorkerViewModel>) -> Seq<WorkerId> {
    Seq::new(workers.len(), |i: int| workers[i].snapshot.id)
}

/// Whether an input mode points at something that is there.
pub open spec fn mode_wf(mode: InputModeView) -> bool {
    match mode {
        InputModeView::CreateWorkerSelection { selected } => selected <= 2,
        InputModeView::WorktreeSelection { worktrees, selected } => worktrees.len() <= usize::MAX
            && (selected == 0 || selected < worktrees.len()),
        InputModeView::ToolSelection { tools, selected_idx, .. } => tools.len()
            == AVAILABLE_TOOLS@.len() && selected_idx <= tools.len(),
        InputModeView::FreePrompt { buffer, cursor, .. } => cursor <= buffer.len(),
        InputModeView::NameInput { buffer, cursor, .. } => cursor <= buffer.len(),
        InputModeView::RenameWorker { buffer, cursor, .. } => cursor <= buffer.len(),
    }
}

impl AppView {
    /// Whether everything that is selected is there: a visible worker where there is one, a
    /// workflow, and what an input mode points at; no two workers share a number, and the
    /// action log is within its capacity.
    pub open spec fn wf(self) -> bool {
        &&& self.workers.len() <= usize::MAX
        &&& view_ids(self.workers).no_duplicates()
        &&& self.selected == 0 || self.selected < self.visible().len()
        &&& self.selected_step < usize::MAX
        &&& self.selected_workflow_idx < self.workflows.len() <= usize::MAX
        &&& self.log_messages.len() <= GLOBAL_LOG_CAPACITY
        &&& self.input_mode matches Some(mode) ==> mode_wf(mode)
    }

    /// The places of the visible workers.
    pub open spec fn visible(self) -> Seq<usize> {
        visible_among(self.workers, self.status_filter, self.workers.len() as int)
    }

    /// The place of the selected worker.
    pub open spec fn selected_place(self) -> Option<int> {
        if self.selected < self.visible().len() {
            Some(self.visible()[self.selected as int] as int)
        } else {
            None
        }
    }

    /// The selected worker.
    pub open spec fn selected_worker(self) -> Option<WorkerViewModel> {
        match self.selected_place() {
            Some(place) => Some(self.workers[place]),
            None => None,
        }
    }

    /// The place of a worker.
    pub open spec fn find(self, id: WorkerId) -> Option<int> {
        model::first_index(view_ids(self.workers), id)
    }

    /// The name of a worker.
    pub open spec fn name_of(self, id: WorkerId) -> Option<Seq<char>> {
        match self.find(id) {
            Some(i) => Some(self.workers[i].snapshot.name),
            None => None,
        }
    }

    /// With something more to be done outside.
    pub open spec fn wanting(self, effect: AppEffectView) -> AppView {
        AppView { effects: self.effects.push(effect), ..self }
    }

    /// With one more entry in the action log, on the screen and on disk.
    pub open spec fn logged(self, worker: Option<Seq<char>>, message: Seq<char>, now: i128) -> AppView {
        let entry = ActionLogEntryView {
            timestamp: clock::timestamp_text(now),
            message,
            worker,
        };
        AppView {
            log_messages: model::queue_push(
                self.log_messages,
                GLOBAL_LOG_CAPACITY as nat,
                helpers::action_log_text(entry),
            ),
            ..self
        }.wanting(AppEffectView::AppendActionLog(entry))
    }

    /// With one more entry in the action log that is about no worker.
    pub open spec fn noted(self, message: Seq<char>, now: i128) -> AppView {
        self.logged(None, message, now)
    }

    /// With another selected worker; the log view starts over where it is another one.
    pub open spec fn selecting(self, selected: usize) -> AppView {
        if selected == self.selected {
            self
        } else {
            AppView { selected, selected_step: 0, log_scroll: 0, ..self }
        }
    }

    /// With the selection moved back to a visible worker.
    pub open spec fn clamped(self) -> AppView {
        let count = self.visible().len();
        if count == 0 {
            self.selecting(0)
        } else if self.selected >= count {
            self.selecting((count - 1) as usize)
        } else {
            self
        }
    }

    /// With one worker changed.
    pub open spec fn with_view(self, i: int, view: WorkerViewModel) -> AppView {
        AppView { workers: self.workers.update(i, view), ..self }
    }

    /// With a worker added, or brought up to date.
    pub open spec fn updated(self, snapshot: WorkerSnapshotView) -> AppView {
        (match self.find(snapshot.id) {
            Some(i) => self.with_view(i, WorkerViewModel { snapshot, ..self.workers[i] }),
            None => AppView { workers: self.workers.push(WorkerViewModel::new(snapshot)), ..self },
        }).clamped()
    }

    /// Without a worker; what is kept of it is deleted.
    pub open spec fn removed(self, id: WorkerId) -> AppView {
        (match self.find(id) {
            Some(i) => AppView { workers: self.workers.remove(i), ..self }.wanting(
                AppEffectView::DeleteWorkerState { name: self.workers[i].snapshot.name },
            ),
            None => self,
        }).clamped()
    }

    /// With one more line in the log of a worker.
    pub open spec fn worker_logged(self, id: WorkerId, line: Seq<char>) -> AppView {
        match self.find(id) {
            Some(i) => self.with_view(i, self.workers[i].logged(line)),
            None => self,
        }
    }

    /// The name of the workflow in use.
    pub open spec fn workflow_name(self) -> Seq<char> {
        if self.selected_workflow_idx < self.workflows.len() {
            self.workflows[self.selected_workflow_idx as int].name
        } else {
            "n/a"@
        }
    }
}

/// The selection rests on a visible worker, or on none where none is visible.
pub proof fn clamping_selects_visible(app: AppView)
    requires
        app.workers.len() <= usize::MAX,
    ensures
        app.clamped().selected == 0 || app.clamped().selected < app.clamped().visible().len(),
        app.clamped().visible() == app.visible(),
        app.clamped().clamped() == app.clamped(),
{
    visible_are_workers(app.workers, app.status_filter, app.workers.len() as int);
}

/// Only the selection and the position in the log view change when the selection is moved
/// back to a visible worker.
pub proof fn clamping_keeps_the_rest(app: AppView)
    ensures
        app.clamped() == (AppView {
            selected: app.clamped().selected,
            selected_step: app.clamped().selected_step,
            log_scroll: app.clamped().log_scroll,
            ..app
        }),
{
}

/// A worker in place of another of the same number keeps the numbers.
proof fn lemma_ids_update(workers: Seq<WorkerViewModel>, i: int, view: WorkerViewModel)
    requires
        0 <= i < workers.len(),
        view.snapshot.id == workers[i].snapshot.id,
    ensures
        view_ids(workers.update(i, view)) == view_ids(workers),
{
    assert(view_ids(workers.update(i, view)) =~= view_ids(workers));
}

/// What is visible does not depend on what is not looked at.
proof fn lemma_visible_same(
    a: Seq<WorkerViewModel>,
    b: Seq<WorkerViewModel>,
    filter: Option<WorkerStatus>,
    n: int,
)
    requires
        a.len() == b.len(),
        n <= a.len(),
        forall|i: int| 0 <= i < a.len() ==> a[i].snapshot.status == b[i].snapshot.status,
    ensures
        visible_among(a, filter, n) == visible_among(b, filter, n),
    decreases n,
{
    if n > 0 {
        lemma_visible_same(a, b, filter, n - 1);
        assert(a[n - 1].snapshot.status == b[n - 1].snapshot.status);
    }
}

/// Another state of a worker leaves everything selected as it is, where its number and its
/// status stay.
pub proof fn lemma_status_kept(app: AppView, i: int, view: WorkerViewModel)
    requires
        app.wf(),
        0 <= i < app.workers.len(),
        view.snapshot.id == app.workers[i].snapshot.id,
        view.snapshot.status == app.workers[i].snapshot.status,
    ensures
        app.with_view(i, view).wf(),
{
    lemma_ids_update(app.workers, i, view);
    lemma_visible_same(
        app.workers,
        app.workers.update(i, view),
        app.status_filter,
        app.workers.len() as int,
    );
}

/// A line in the log of a worker leaves everything selected as it is.
pub proof fn logging_keeps_wf(app: AppView, id: WorkerId, line: Seq<char>)
    requires
        app.wf(),
    ensures
        app.worker_logged(id, line).wf(),
        app.worker_logged(id, line).visible() == app.visible(),
        app.worker_logged(id, line).workers.len() == app.workers.len(),
{
    model::first_index_is_first(view_ids(app.workers), id);
    match app.find(id) {
        Some(i) => {
            let view = app.workers[i].logged(line);
            lemma_ids_update(app.workers, i, view);
            lemma_visible_same(
                app.workers,
                app.workers.update(i, view),
                app.status_filter,
                app.workers.len() as int,
            );
        },
        None => {},
    }
}

/// An update keeps everything selected on what is there.
pub proof fn updates_keep_wf(app: AppView, snapshot: WorkerSnapshotView)
    requires
        app.wf(),
        app.workers.len() < usize::MAX,
    ensures
        app.updated(snapshot).wf(),
        app.updated(snapshot).find(snapshot.id) is Some,
        app.updated(snapshot).workers.len() <= app.workers.len() + 1,
{
    let ids = view_ids(app.workers);
    model::first_index_is_first(ids, snapshot.id);
    let after = app.updated(snapshot);
    match app.find(snapshot.id) {
        Some(i) => {
            let view = WorkerViewModel { snapshot, ..app.workers[i] };
            lemma_ids_update(app.workers, i, view);
        },
        None => {
            assert(view_ids(after.workers) =~= ids.push(snapshot.id));
            assert(view_ids(after.workers)[ids.len() as int] == snapshot.id);
        },
    }
    clamping_selects_visible(
        (match app.find(snapshot.id) {
            Some(i) => app.with_view(i, WorkerViewModel { snapshot, ..app.workers[i] }),
            None => AppView { workers: app.workers.push(WorkerViewModel::new(snapshot)), ..app },
        }),
    );
    model::first_index_is_first(view_ids(after.workers), snapshot.id);
}

/// A removal keeps everything selected on what is there, and the worker is gone.
pub proof fn removals_keep_wf(app: AppView, id: WorkerId)
    requires
        app.wf(),
    ensures
        app.removed(id).wf(),
        app.removed(id).find(id) is None,
        app.removed(id).workers.len() <= app.workers.len(),
{
    let ids = view_ids(app.workers);
    model::first_index_is_first(ids, id);
    let after = app.removed(id);
    match app.find(id) {
        Some(i) => {
            assert(view_ids(after.workers) =~= ids.remove(i));
        },
        None => {},
    }
    clamping_selects_visible(
        (match app.find(id) {
            Some(i) => AppView { workers: app.workers.remove(i), ..app }.wanting(
                AppEffectView::DeleteWorkerState { name: app.workers[i].snapshot.name },
            ),
            None => app,
        }),
    );
    model::first_index_is_first(view_ids(after.workers), id);
}

/// Returns the place of a worker.
fn find_view(workers: &Vec<WorkerView>, id: WorkerId) -> (r: Option<usize>)
    ensures
        match r {
            Some(i) => i < workers.len() && model::first_index(
                view_ids(workers.deep_view()),
                id,
            ) == Some(i as int),
            None => model::first_index(view_ids(workers.deep_view()), id) is None,
        },
{
    let ghost ids = view_ids(workers.deep_view());
    proof {
        model::first_index_is_first(ids, id);
    }
    for i in 0..workers.len()
        invariant
            ids == view_ids(workers.deep_view()),
            forall|j: int| 0 <= j < i ==> ids[j] != id,
            match model::first_index(ids, id) {
                Some(k) => 0 <= k < ids.len() && ids[k] == id && forall|j: int|
                    0 <= j < k ==> ids[j] != id,
                None => forall|j: int| 0 <= j < ids.len() ==> ids[j] != id,
            },
    {
        assert(ids[i as int] == workers@[i as int].snapshot.id);
        if workers[i].snapshot.id.0 == id.0 {
            return Some(i);
        }
    }
    None
}

/// The place of the workflow in use at the start.
pub open spec fn first_workflow(config: ConfigView) -> int {
    match config.default_workflow {
        Some(name) => match model::first_index(config::workflow_names(config.workflows), name) {
            Some(i) => i,
            None => 0,
        },
        None => 0,
    }
}

/// The dashboard at the start.
pub open spec fn initial_app(
    repo_root: Seq<char>,
    product: ProductView,
    config: ConfigView,
    history: Seq<ActionLogEntryView>,
) -> AppView {
    AppView {
        repo_root,
        product,
        manager: WorkerHandleView { queue: seq![], open: true },
        workflows: config.workflows,
        selected_workflow_idx: first_workflow(config) as usize,
        workers: seq![],
        selected: 0,
        show_help: false,
        show_logs: false,
        log_messages: Seq::new(history.len(), |i: int| helpers::action_log_text(history[i])),
        log_scroll: 0,
        status_filter: None,
        input_mode: None,
        log_view_mode: LogViewMode::Overview,
        selected_step: 0,
        animation_frame: 0,
        permission_prompt: None,
        permission_tracker: Map::empty(),
        pending_interactive_mode: None,
        auto_scroll_logs: true,
        show_session_history: false,
        session_history_scroll: 0,
        selected_session: 0,
        effects: seq![],
    }
}

impl App {
    /// Returns the dashboard at the start: `config` as it was loaded, `history` as the action
    /// log gave it. A configuration without workflows is replaced by the default one.
    pub fn new(
        repo_root: String,
        product: Product,
        config: Config,
        history: &Vec<ActionLogEntry>,
    ) -> (r: Self)
        ensures
            r.deep_view() == initial_app(
                repo_root@,
                product.deep_view(),
                if config.deep_view().workflows.len() == 0 {
                    config::default_config()
                } else {
                    config.deep_view()
                },
                history.deep_view(),
            ),
            history.len() <= GLOBAL_LOG_CAPACITY ==> r.deep_view().wf(),
    {
        broadcast use vstd::std_specs::hash::group_hash_axioms;

        let config = if config.workflows.len() == 0 {
            let default = Config::default();
            assert(default.deep_view().workflows.len() == 1);
            default
        } else {
            config
        };
        let ghost view = config.deep_view();
        assert(view.workflows.len() == config.workflows.len());
        let found = match &config.default_workflow {
            Some(name) => find_workflow(&config.workflows, name.as_str()),
            None => None,
        };
        let idx: usize = match found {
            Some(i) => i,
            None => 0,
        };
        let mut log_messages: VecDeque<String> = VecDeque::new();
        let ghost texts = Seq::new(
            history.deep_view().len(),
            |i: int| helpers::action_log_text(history.deep_view()[i]),
        );
        for i in 0..history.len()
            invariant
                texts == Seq::new(
                    history.deep_view().len(),
                    |i: int| helpers::action_log_text(history.deep_view()[i]),
                ),
                log_messages@.len() == i,
                forall|j: int| 0 <= j < i ==> (#[trigger] log_messages@[j])@ == texts[j],
        {
            log_messages.push_back(format_action_log(&history[i]));
        }
        assert(model::queued(log_messages) =~= texts);
        let r = App {
            repo_root,
            product,
            manager: WorkerHandle::new(),
            workflows: config.workflows,
            selected_workflow_idx: idx,
            workers: Vec::new(),
            selected: 0,
            show_help: false,
            show_logs: false,
            log_messages,
            log_scroll: 0,
            status_filter: None,
            input_mode: None,
            log_view_mode: LogViewMode::Overview,
            selected_step: 0,
            animation_frame: 0,
            permission_prompt: None,
            permission_tracker: HashMap::new(),
            pending_interactive_mode: None,
            auto_scroll_logs: true,
            show_session_history: false,
            session_history_scroll: 0,
            selected_session: 0,
            effects: Vec::new(),
        };
        assert(r.workers.deep_view() =~= seq![]);
        assert(r.effects.deep_view() =~= seq![]);
        assert(tracker_view(r.permission_tracker@) =~= Map::empty());
        assert(r.workflows.deep_view().len() == r.workflows.len());
        r
    }

    fn want(&mut self, effect: AppEffect)
        ensures
            final(self).deep_view() == old(self).deep_view().wanting(effect.deep_view()),
    {
        let ghost before = self.effects.deep_view();
        self.effects.push(effect);
        assert(self.effects.deep_view() =~= before.push(effect.deep_view()));
    }

    /// Takes out what is to be done outside, in order.
    pub fn take_effects(&mut self) -> (r: Vec<AppEffect>)
        ensures
            r.deep_view() == old(self).deep_view().effects,
            final(self).deep_view() == (AppView { effects: seq![], ..old(self).deep_view() }),
    {
        let mut out: Vec<AppEffect> = Vec::new();
        std::mem::swap(&mut out, &mut self.effects);
        assert(self.effects.deep_view() =~= seq![]);
        out
    }

    /// Returns the places of the visible workers.
    pub fn visible_indices(&self) -> (r: Vec<usize>)
        ensures
            r@ == self.deep_view().visible(),
            forall|i: int| 0 <= i < r.len() ==> (#[trigger] r@[i]) < self.workers.len(),
            r.len() <= self.workers.len(),
    {
        let ghost workers = self.workers.deep_view();
        let mut out: Vec<usize> = Vec::new();
        for i in 0..self.workers.len()
            invariant
                workers == self.workers.deep_view(),
                out@ == visible_among(workers, self.status_filter, i as int),
        {
            assert(workers[i as int] == self.workers@[i as int].deep_view());
            let shown = match self.status_filter {
                None => true,
                Some(status) => self.workers[i].snapshot.status == status,
            };
            if shown {
                out.push(i);
            }
        }
        proof {
            visible_are_workers(workers, self.status_filter, self.workers.len() as int);
        }
        out
    }

    /// Returns the place of the selected worker.
    fn selected_index(&self) -> (r: Option<usize>)
        ensures
            match r {
                Some(i) => i < self.workers.len() && self.deep_view().selected_place() == Some(
                    i as int,
                ),
                None => self.deep_view().selected_place() is None,
            },
    {
        let visible = self.visible_indices();
        if self.selected < visible.len() {
            Some(visible[self.selected])
        } else {
            None
        }
    }

    /// Returns the number of the selected worker.
    pub fn selected_worker_id(&self) -> (r: Option<WorkerId>)
        ensures
            r == (match self.deep_view().selected_worker() {
                Some(worker) => Some(worker.snapshot.id),
                None => None,
            }),
    {
        match self.selected_index() {
            Some(i) => Some(self.workers[i].snapshot.id),
            None => None,
        }
    }

    /// Returns the selected worker.
    pub fn selected_worker_view(&self) -> (r: Option<&WorkerView>)
        ensures
            match r {
                Some(view) => self.deep_view().selected_worker() == Some(view.deep_view()),
                None => self.deep_view().selected_worker() is None,
            },
    {
        match self.selected_index() {
            Some(i) => Some(&self.workers[i]),
            None => None,
        }
    }

    /// Moves the selection back to a visible worker.
    pub fn clamp_selection(&mut self)
        ensures
            final(self).deep_view() == old(self).deep_view().clamped(),
    {
        let count: usize = self.visible_indices().len();
        let old_selected = self.selected;
        if count == 0 {
            self.selected = 0;
        } else if self.selected >= count {
            self.selected = count - 1;
        }
        if old_selected != self.selected {
            self.selected_step = 0;
            self.log_scroll = 0;
        }
    }

    /// Adds an entry to the action log.
    pub fn push_log(&mut self, message: String, now: i128)
        ensures
            final(self).deep_view() == old(self).deep_view().noted(message@, now),
    {
        self.push_log_with_worker(None, message, now);
    }

    /// Adds an entry about a worker to the action log.
    pub fn push_log_with_worker(&mut self, worker: Option<&str>, message: String, now: i128)
        ensures
            final(self).deep_view() == old(self).deep_view().logged(
                match worker {
                    Some(w) => Some(w@),
                    None => None,
                },
                message@,
                now,
            ),
    {
        let entry = ActionLogEntry {
            timestamp: timestamp(now),
            message,
            worker: match worker {
                Some(w) => Some(w.to_owned()),
                None => None,
            },
        };
        push_line(&mut self.log_messages, GLOBAL_LOG_CAPACITY, format_action_log(&entry));
        self.want(AppEffect::AppendActionLog(entry));
    }

    /// Adds a worker, or brings it up to date.
    pub fn add_or_update_worker(&mut self, snapshot: WorkerSnapshot)
        ensures
            final(self).deep_view() == old(self).deep_view().updated(snapshot.deep_view()),
    {
        let ghost before = self.workers.deep_view();
        let ghost view = snapshot.deep_view();
        match find_view(&self.workers, snapshot.id) {
            Some(i) => {
                let worker = &mut self.workers[i];
                worker.update_snapshot(snapshot);
                assert(self.workers.deep_view() =~= before.update(
                    i as int,
                    WorkerViewModel { snapshot: view, ..before[i as int] },
                ));
            },
            None => {
                self.workers.push(WorkerView::new(snapshot));
                assert(self.workers.deep_view() =~= before.push(WorkerViewModel::new(view)));
            },
        }
        self.clamp_selection();
    }

    /// Removes a worker and has what is kept of it deleted.
    pub fn remove_worker(&mut self, id: WorkerId)
        ensures
            final(self).deep_view() == old(self).deep_view().removed(id),
    {
        let ghost before = self.workers.deep_view();
        if let Some(i) = find_view(&self.workers, id) {
            let view = self.workers.remove(i);
            assert(self.workers.deep_view() =~= before.remove(i as int));
            self.want(AppEffect::DeleteWorkerState { name: view.snapshot.name });
        }
        self.clamp_selection();
    }

    /// Adds a line to the log of a worker.
    pub fn add_worker_log(&mut self, id: WorkerId, line: String)
        ensures
            final(self).deep_view() == old(self).deep_view().worker_logged(id, line@),
    {
        let ghost before = self.workers.deep_view();
        if let Some(i) = find_view(&self.workers, id) {
            let worker = &mut self.workers[i];
            worker.push_log(line);
            assert(self.workers.deep_view() =~= before.update(
                i as int,
                before[i as int].logged(line@),
            ));
        }
    }

    /// Returns the name of a worker.
    pub fn worker_name_by_id(&self, id: WorkerId) -> (r: Option<String>)
        ensures
            r.deep_view() == self.deep_view().name_of(id),
    {
        match find_view(&self.workers, id) {
            Some(i) => Some(self.workers[i].snapshot.name.clone()),
            None => None,
        }
    }

    /// Returns the name of the workflow in use.
    pub fn current_workflow_name(&self) -> (r: &str)
        ensures
            r@ == self.deep_view().workflow_name(),
    {
        if self.selected_workflow_idx < self.workflows.len() {
            self.workflows[self.selected_workflow_idx].name.as_str()
        } else {
            "n/a"
        }
    }
}

} // verus!
