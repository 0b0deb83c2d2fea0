//! Types of the dashboard: keys, input modes and what is wanted outside.
use crate::state::{ActionLogEntry, ActionLogEntryView};
use crate::worker::{
    ExistingWorktree, ExistingWorktreeView, PermissionDecision, PermissionDecisionView,
    PermissionRequest, PermissionRequestView, WorkerId,
};
use vstd::prelude::*;

verus! {

/// A key of the keyboard.
#[derive(Debug, Clone, Copy, PartialEq, Eq, Structural)]
pub enum KeyCode {
    Backspace,
    Enter,
    Left,
    Right,
    Up,
    Down,
    Home,
    End,
    PageUp,
    PageDown,
    Tab,
    BackTab,
    Esc,
    Char(char),
    /// Any key that has no meaning here.
    Other,
}

/// The modifier keys that are held down.
#[derive(Debug, Clone, Copy, PartialEq, Eq, Structural)]
pub struct KeyModifiers {
    pub shift: bool,
    pub control: bool,
    pub alt: bool,
    /// Any other modifier.
    pub other: bool,
}

impl KeyModifiers {
    /// Whether no modifier is held down.
    pub open spec fn none(self) -> bool {
        !self.shift && !self.control && !self.alt && !self.other
    }

    /// Whether a character is meant as text.
    pub open spec fn typing(self) -> bool {
        !self.control && !self.alt
    }

    /// Whether a character is meant as text.
    pub fn is_typing(&self) -> (r: bool)
        ensures
            r == self.typing(),
    {
        !self.control && !self.alt
    }

    /// Whether no modifier is held down.
    pub fn is_empty(&self) -> (r: bool)
        ensures
            r == self.none(),
    {
        !self.shift && !self.control && !self.alt && !self.other
    }
}

/// A key press.
#[derive(Debug, Clone, Copy, PartialEq, Eq, Structural)]
pub struct KeyEvent {
    pub code: KeyCode,
    pub modifiers: KeyModifiers,
}

/// What follows once a name has been entered.
#[derive(Debug, Clone, Copy, PartialEq, Eq, Structural)]
pub enum NameInputNextAction {
    CreateWithWorkflow,
    CreateWithFreePrompt,
}

/// The window that takes the keys. In one that takes a text, the cursor is the place in the text
/// where the next character goes.
#[allow(inconsistent_fields)]
#[derive(Debug)]
pub enum InputMode {
    FreePrompt { buffer: String, cursor: usize, force_new: bool, permission_mode: Option<String>, worker_name: Option<String> },
    CreateWorkerSelection { selected: usize },
    WorktreeSelection { worktrees: Vec<ExistingWorktree>, selected: usize },
    /// Tools are checked by their place in the list; the place behind the last one is the
    /// permission mode.
    ToolSelection { tools: Vec<bool>, selected_idx: usize, permission_mode: String, worker_id: WorkerId, request_id: u64 },
    NameInput { buffer: String, cursor: usize, workflow_name: Option<String>, next_action: NameInputNextAction },
    RenameWorker { buffer: String, cursor: usize, worker_id: WorkerId },
}

/// What a [`InputMode`] holds.
#[allow(inconsistent_fields)]
#[verifier::ext_equal]
pub enum InputModeView {
    FreePrompt { buffer: Seq<char>, cursor: usize, force_new: bool, permission_mode: Option<Seq<char>>, worker_name: Option<Seq<char>> },
    CreateWorkerSelection { selected: usize },
    WorktreeSelection { worktrees: Seq<ExistingWorktreeView>, selected: usize },
    ToolSelection { tools: Seq<bool>, selected_idx: usize, permission_mode: Seq<char>, worker_id: WorkerId, request_id: u64 },
    NameInput { buffer: Seq<char>, cursor: usize, workflow_name: Option<Seq<char>>, next_action: NameInputNextAction },
    RenameWorker { buffer: Seq<char>, cursor: usize, worker_id: WorkerId },
}

impl DeepView for InputMode {
    type V = InputModeView;

    open spec fn deep_view(&self) -> InputModeView {
        match self {
            InputMode::FreePrompt { buffer, cursor, force_new, permission_mode, worker_name } => InputModeView::FreePrompt {
                buffer: buffer@,
                cursor: *cursor,
                force_new: *force_new,
                permission_mode: permission_mode.deep_view(),
                worker_name: worker_name.deep_view(),
            },
            InputMode::CreateWorkerSelection { selected } => InputModeView::CreateWorkerSelection {
                selected: *selected,
            },
            InputMode::WorktreeSelection { worktrees, selected } => InputModeView::WorktreeSelection {
                worktrees: worktrees.deep_view(),
                selected: *selected,
            },
            InputMode::ToolSelection { tools, selected_idx, permission_mode, worker_id, request_id } => InputModeView::ToolSelection {
                tools: tools@,
                selected_idx: *selected_idx,
                permission_mode: permission_mode@,
                worker_id: *worker_id,
                request_id: *request_id,
            },
            InputMode::NameInput { buffer, cursor, workflow_name, next_action } => InputModeView::NameInput {
                buffer: buffer@,
                cursor: *cursor,
                workflow_name: workflow_name.deep_view(),
                next_action: *next_action,
            },
            InputMode::RenameWorker { buffer, cursor, worker_id } => InputModeView::RenameWorker {
                buffer: buffer@,
                cursor: *cursor,
                worker_id: *worker_id,
            },
        }
    }
}

/// A permission request that is being shown, with the answer that is selected.
#[derive(Debug)]
pub struct PermissionPromptState {
    pub worker_id: WorkerId,
    pub worker_name: String,
    pub request: PermissionRequest,
    pub selection: PermissionDecision,
}

/// What a [`PermissionPromptState`] holds.
#[verifier::ext_equal]
pub struct PermissionPromptStateView {
    pub worker_id: WorkerId,
    pub worker_name: Seq<char>,
    pub request: PermissionRequestView,
    pub selection: PermissionDecisionView,
}

impl DeepView for PermissionPromptState {
    type V = PermissionPromptStateView;

    open spec fn deep_view(&self) -> PermissionPromptStateView {
        PermissionPromptStateView {
            worker_id: self.worker_id,
            worker_name: self.worker_name@,
            request: self.request.deep_view(),
            selection: self.selection.deep_view(),
        }
    }
}

impl PermissionDecisionView {
    /// The other answer.
    pub open spec fn toggled(self) -> PermissionDecisionView {
        match self {
            PermissionDecisionView::Allow { .. } => PermissionDecisionView::Deny,
            PermissionDecisionView::Deny => PermissionDecisionView::allow(),
        }
    }

    /// The answer that allows everything as it is configured.
    pub open spec fn allow() -> PermissionDecisionView {
        PermissionDecisionView::Allow { permission_mode: None, allowed_tools: None }
    }
}

impl PermissionPromptState {
    /// Selects the other answer.
    pub fn toggle(&mut self)
        ensures
            final(self).deep_view() == (PermissionPromptStateView {
                selection: old(self).deep_view().selection.toggled(),
                ..old(self).deep_view()
            }),
    {
        self.selection = match &self.selection {
            PermissionDecision::Allow { .. } => PermissionDecision::Deny,
            PermissionDecision::Deny => {
                PermissionDecision::Allow { permission_mode: None, allowed_tools: None }
            },
        };
    }
}

/// Selecting the other answer twice leads back to the answer, where it is one of the two that
/// are on offer.
pub proof fn toggling_twice_leads_back(decision: PermissionDecisionView)
    requires
        decision == PermissionDecisionView::Deny || decision == PermissionDecisionView::allow(),
    ensures
        decision.toggled().toggled() == decision,
        decision.toggled() != decision,
{
}

/// The worker and the step of a permission request.
#[derive(Debug)]
pub struct PermissionTrackerEntry {
    pub worker_name: String,
    pub step_name: String,
}

/// What a [`PermissionTrackerEntry`] holds.
#[verifier::ext_equal]
pub struct PermissionTrackerEntryView {
    pub worker_name: Seq<char>,
    pub step_name: Seq<char>,
}

impl DeepView for PermissionTrackerEntry {
    type V = PermissionTrackerEntryView;

    open spec fn deep_view(&self) -> PermissionTrackerEntryView {
        PermissionTrackerEntryView {
            worker_name: self.worker_name@,
            step_name: self.step_name@,
        }
    }
}

/// A worker whose agent is to be run in the terminal.
#[derive(Debug)]
pub struct InteractiveRequest {
    pub worker_name: String,
    pub worktree_path: String,
    pub session_id: Option<String>,
}

/// What a [`InteractiveRequest`] holds.
#[verifier::ext_equal]
pub struct InteractiveRequestView {
    pub worker_name: Seq<char>,
    pub worktree_path: Seq<char>,
    pub session_id: Option<Seq<char>>,
}

impl DeepView for InteractiveRequest {
    type V = InteractiveRequestView;

    open spec fn deep_view(&self) -> InteractiveRequestView {
        InteractiveRequestView {
            worker_name: self.worker_name@,
            worktree_path: self.worktree_path@,
            session_id: self.session_id.deep_view(),
        }
    }
}

/// What the dashboard wants done outside.
#[derive(Debug)]
pub enum AppEffect {
    /// Append an entry to the action log on disk.
    AppendActionLog(ActionLogEntry),
    /// Delete what is kept of a worker.
    DeleteWorkerState { name: String },
    /// List the worktrees of the repository and hand them back.
    ListWorktrees,
    /// Delete what is kept of an archived worker and say how that went.
    DeleteArchive { id: WorkerId, name: String },
}

/// What a [`AppEffect`] holds.
#[verifier::ext_equal]
pub enum AppEffectView {
    AppendActionLog(ActionLogEntryView),
    DeleteWorkerState { name: Seq<char> },
    ListWorktrees,
    DeleteArchive { id: WorkerId, name: Seq<char> },
}

impl DeepView for AppEffect {
    type V = AppEffectView;

    open spec fn deep_view(&self) -> AppEffectView {
        match self {
            AppEffect::AppendActionLog(a) => AppEffectView::AppendActionLog(a.deep_view()),
            AppEffect::DeleteWorkerState { name } => AppEffectView::DeleteWorkerState {
                name: name@,
            },
            AppEffect::ListWorktrees => AppEffectView::ListWorktrees,
            AppEffect::DeleteArchive { id, name } => AppEffectView::DeleteArchive {
                id: *id,
                name: name@,
            },
        }
    }
}

} // verus!
