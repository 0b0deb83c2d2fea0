//! Workers: agents that each run a workflow in a git worktree of their own.
pub mod agent;
pub mod claude;
pub mod command;
pub mod command_laws;
pub mod manager;
pub mod manager_laws;
pub mod name_registry;
pub mod name_validator;
pub mod output_laws;
pub mod runtime;
pub mod step_laws;
pub mod whole_run;

pub use command::list_existing_worktrees;

use crate::model::Duplicate;
use crate::text::cat3;
use vstd::prelude::*;

verus! {

/// The number of a worker.
#[derive(Clone, Copy, Debug, PartialEq, Eq, Hash, Structural)]
pub struct WorkerId(pub usize);

/// What a worker is doing.
#[derive(Clone, Copy, Debug, PartialEq, Eq, Structural)]
pub enum WorkerStatus {
    Idle,
    Running,
    Paused,
    Failed,
    Archived,
}

impl WorkerStatus {
    /// The text of a status.
    pub open spec fn text(self) -> Seq<char> {
        match self {
            WorkerStatus::Idle => "Idle"@,
            WorkerStatus::Running => "Running"@,
            WorkerStatus::Paused => "Paused"@,
            WorkerStatus::Failed => "Failed"@,
            WorkerStatus::Archived => "Archived"@,
        }
    }

    /// Returns the text of a status.
    pub fn label(&self) -> (r: &'static str)
        ensures
            r@ == self.text(),
    {
        match self {
            WorkerStatus::Idle => "Idle",
            WorkerStatus::Running => "Running",
            WorkerStatus::Paused => "Paused",
            WorkerStatus::Failed => "Failed",
            WorkerStatus::Archived => "Archived",
        }
    }
}

/// A worker as the dashboard shows it.
#[derive(Debug)]
pub struct WorkerSnapshot {
    pub id: WorkerId,
    pub name: String,
    pub issue: Option<String>,
    pub agent: String,
    pub worktree: String,
    pub branch: String,
    pub status: WorkerStatus,
    pub last_event: String,
    pub workflow: String,
    pub total_steps: usize,
    pub current_step: Option<String>,
    pub session_id: Option<String>,
}

/// What a [`WorkerSnapshot`] holds.
#[verifier::ext_equal]
pub struct WorkerSnapshotView {
    pub id: WorkerId,
    pub name: Seq<char>,
    pub issue: Option<Seq<char>>,
    pub agent: Seq<char>,
    pub worktree: Seq<char>,
    pub branch: Seq<char>,
    pub status: WorkerStatus,
    pub last_event: Seq<char>,
    pub workflow: Seq<char>,
    pub total_steps: usize,
    pub current_step: Option<Seq<char>>,
    pub session_id: Option<Seq<char>>,
}

impl DeepView for WorkerSnapshot {
    type V = WorkerSnapshotView;

    open spec fn deep_view(&self) -> WorkerSnapshotView {
        WorkerSnapshotView {
            id: self.id,
            name: self.name@,
            issue: self.issue.deep_view(),
            agent: self.agent@,
            worktree: self.worktree@,
            branch: self.branch@,
            status: self.status,
            last_event: self.last_event@,
            workflow: self.workflow@,
            total_steps: self.total_steps,
            current_step: self.current_step.deep_view(),
            session_id: self.session_id.deep_view(),
        }
    }
}

impl Clone for WorkerSnapshot {
    fn clone(&self) -> (r: Self)
        ensures
            r.deep_view() == self.deep_view(),
    {
        WorkerSnapshot {
            id: self.id,
            name: self.name.clone(),
            issue: self.issue.duplicate(),
            agent: self.agent.clone(),
            worktree: self.worktree.clone(),
            branch: self.branch.clone(),
            status: self.status,
            last_event: self.last_event.clone(),
            workflow: self.workflow.clone(),
            total_steps: self.total_steps,
            current_step: self.current_step.duplicate(),
            session_id: self.session_id.duplicate(),
        }
    }
}

impl Duplicate for WorkerSnapshot {
    fn duplicate(&self) -> (r: Self) {
        self.clone()
    }
}

/// What a new worker is made from; whatever is left open gets a default.
#[derive(Debug)]
pub struct CreateWorkerRequest {
    pub name: Option<String>,
    pub issue: Option<String>,
    pub agent: Option<String>,
    pub workflow: Option<String>,
    pub free_prompt: Option<String>,
    pub existing_worktree: Option<(String, String)>,
    pub permission_mode: Option<String>,
}

/// What a [`CreateWorkerRequest`] holds.
#[verifier::ext_equal]
pub struct CreateWorkerRequestView {
    pub name: Option<Seq<char>>,
    pub issue: Option<Seq<char>>,
    pub agent: Option<Seq<char>>,
    pub workflow: Option<Seq<char>>,
    pub free_prompt: Option<Seq<char>>,
    pub existing_worktree: Option<(Seq<char>, Seq<char>)>,
    pub permission_mode: Option<Seq<char>>,
}

impl DeepView for CreateWorkerRequest {
    type V = CreateWorkerRequestView;

    open spec fn deep_view(&self) -> CreateWorkerRequestView {
        CreateWorkerRequestView {
            name: self.name.deep_view(),
            issue: self.issue.deep_view(),
            agent: self.agent.deep_view(),
            workflow: self.workflow.deep_view(),
            free_prompt: self.free_prompt.deep_view(),
            existing_worktree: self.existing_worktree.deep_view(),
            permission_mode: self.permission_mode.deep_view(),
        }
    }
}

impl Clone for CreateWorkerRequest {
    fn clone(&self) -> (r: Self)
        ensures
            r.deep_view() == self.deep_view(),
    {
        CreateWorkerRequest {
            name: self.name.duplicate(),
            issue: self.issue.duplicate(),
            agent: self.agent.duplicate(),
            workflow: self.workflow.duplicate(),
            free_prompt: self.free_prompt.duplicate(),
            existing_worktree: self.existing_worktree.duplicate(),
            permission_mode: self.permission_mode.duplicate(),
        }
    }
}

impl Duplicate for CreateWorkerRequest {
    fn duplicate(&self) -> (r: Self) {
        self.clone()
    }
}

/// A worktree of the repository and the branch that is checked out in it.
#[derive(Debug)]
pub struct ExistingWorktree {
    pub path: String,
    pub branch: String,
}

/// What a [`ExistingWorktree`] holds.
#[verifier::ext_equal]
pub struct ExistingWorktreeView {
    pub path: Seq<char>,
    pub branch: Seq<char>,
}

impl DeepView for ExistingWorktree {
    type V = ExistingWorktreeView;

    open spec fn deep_view(&self) -> ExistingWorktreeView {
        ExistingWorktreeView {
            path: self.path@,
            branch: self.branch@,
        }
    }
}

impl Clone for ExistingWorktree {
    fn clone(&self) -> (r: Self)
        ensures
            r.deep_view() == self.deep_view(),
    {
        ExistingWorktree {
            path: self.path.clone(),
            branch: self.branch.clone(),
        }
    }
}

impl Duplicate for ExistingWorktree {
    fn duplicate(&self) -> (r: Self) {
        self.clone()
    }
}

/// What the manager is asked to do.
#[derive(Debug)]
pub enum WorkerCommand {
    Create(CreateWorkerRequest),
    Delete { id: WorkerId },
    Restart { id: WorkerId },
    Continue { id: WorkerId, prompt: String, permission_mode: Option<String> },
    Rename { id: WorkerId, new_name: String },
    Persist { id: WorkerId },
    PermissionPrompt { id: WorkerId, request: PermissionRequest },
    PermissionResponse { id: WorkerId, request_id: u64, decision: PermissionDecision },
}

/// What a [`WorkerCommand`] holds.
#[verifier::ext_equal]
pub enum WorkerCommandView {
    Create(CreateWorkerRequestView),
    Delete { id: WorkerId },
    Restart { id: WorkerId },
    Continue { id: WorkerId, prompt: Seq<char>, permission_mode: Option<Seq<char>> },
    Rename { id: WorkerId, new_name: Seq<char> },
    Persist { id: WorkerId },
    PermissionPrompt { id: WorkerId, request: PermissionRequestView },
    PermissionResponse { id: WorkerId, request_id: u64, decision: PermissionDecisionView },
}

impl DeepView for WorkerCommand {
    type V = WorkerCommandView;

    open spec fn deep_view(&self) -> WorkerCommandView {
        match self {
            WorkerCommand::Create(a) => WorkerCommandView::Create(a.deep_view()),
            WorkerCommand::Delete { id } => WorkerCommandView::Delete {
                id: *id,
            },
            WorkerCommand::Restart { id } => WorkerCommandView::Restart {
                id: *id,
            },
            WorkerCommand::Continue { id, prompt, permission_mode } => WorkerCommandView::Continue {
                id: *id,
                prompt: prompt@,
                permission_mode: permission_mode.deep_view(),
            },
            WorkerCommand::Rename { id, new_name } => WorkerCommandView::Rename {
                id: *id,
                new_name: new_name@,
            },
            WorkerCommand::Persist { id } => WorkerCommandView::Persist {
                id: *id,
            },
            WorkerCommand::PermissionPrompt { id, request } => WorkerCommandView::PermissionPrompt {
                id: *id,
                request: request.deep_view(),
            },
            WorkerCommand::PermissionResponse { id, request_id, decision } => WorkerCommandView::PermissionResponse {
                id: *id,
                request_id: *request_id,
                decision: decision.deep_view(),
            },
        }
    }
}

impl Clone for WorkerCommand {
    fn clone(&self) -> (r: Self)
        ensures
            r.deep_view() == self.deep_view(),
    {
        match self {
            WorkerCommand::Create(a) => WorkerCommand::Create(a.duplicate()),
            WorkerCommand::Delete { id } => WorkerCommand::Delete {
                id: *id,
            },
            WorkerCommand::Restart { id } => WorkerCommand::Restart {
                id: *id,
            },
            WorkerCommand::Continue { id, prompt, permission_mode } => WorkerCommand::Continue {
                id: *id,
                prompt: prompt.clone(),
                permission_mode: permission_mode.duplicate(),
            },
            WorkerCommand::Rename { id, new_name } => WorkerCommand::Rename {
                id: *id,
                new_name: new_name.clone(),
            },
            WorkerCommand::Persist { id } => WorkerCommand::Persist {
                id: *id,
            },
            WorkerCommand::PermissionPrompt { id, request } => WorkerCommand::PermissionPrompt {
                id: *id,
                request: request.duplicate(),
            },
            WorkerCommand::PermissionResponse { id, request_id, decision } => WorkerCommand::PermissionResponse {
                id: *id,
                request_id: *request_id,
                decision: decision.duplicate(),
            },
        }
    }
}

impl Duplicate for WorkerCommand {
    fn duplicate(&self) -> (r: Self) {
        self.clone()
    }
}

/// What the manager and the agents report.
#[allow(inconsistent_fields)]
#[derive(Debug)]
pub enum WorkerEvent {
    Created(WorkerSnapshot),
    Updated(WorkerSnapshot),
    Log { id: WorkerId, line: String },
    Deleted { id: WorkerId, message: String },
    Renamed { id: WorkerId, old_name: String, new_name: String },
    Error { id: Option<WorkerId>, message: String },
    PermissionRequested { id: WorkerId, request: PermissionRequest },
    PermissionResolved { id: WorkerId, request_id: u64, decision: PermissionDecision },
}

/// What a [`WorkerEvent`] holds.
#[allow(inconsistent_fields)]
#[verifier::ext_equal]
pub enum WorkerEventView {
    Created(WorkerSnapshotView),
    Updated(WorkerSnapshotView),
    Log { id: WorkerId, line: Seq<char> },
    Deleted { id: WorkerId, message: Seq<char> },
    Renamed { id: WorkerId, old_name: Seq<char>, new_name: Seq<char> },
    Error { id: Option<WorkerId>, message: Seq<char> },
    PermissionRequested { id: WorkerId, request: PermissionRequestView },
    PermissionResolved { id: WorkerId, request_id: u64, decision: PermissionDecisionView },
}

impl DeepView for WorkerEvent {
    type V = WorkerEventView;

    open spec fn deep_view(&self) -> WorkerEventView {
        match self {
            WorkerEvent::Created(a) => WorkerEventView::Created(a.deep_view()),
            WorkerEvent::Updated(a) => WorkerEventView::Updated(a.deep_view()),
            WorkerEvent::Log { id, line } => WorkerEventView::Log {
                id: *id,
                line: line@,
            },
            WorkerEvent::Deleted { id, message } => WorkerEventView::Deleted {
                id: *id,
                message: message@,
            },
            WorkerEvent::Renamed { id, old_name, new_name } => WorkerEventView::Renamed {
                id: *id,
                old_name: old_name@,
                new_name: new_name@,
            },
            WorkerEvent::Error { id, message } => WorkerEventView::Error {
                id: *id,
                message: message@,
            },
            WorkerEvent::PermissionRequested { id, request } => WorkerEventView::PermissionRequested {
                id: *id,
                request: request.deep_view(),
            },
            WorkerEvent::PermissionResolved { id, request_id, decision } => WorkerEventView::PermissionResolved {
                id: *id,
                request_id: *request_id,
                decision: decision.deep_view(),
            },
        }
    }
}

impl Clone for WorkerEvent {
    fn clone(&self) -> (r: Self)
        ensures
            r.deep_view() == self.deep_view(),
    {
        match self {
            WorkerEvent::Created(a) => WorkerEvent::Created(a.duplicate()),
            WorkerEvent::Updated(a) => WorkerEvent::Updated(a.duplicate()),
            WorkerEvent::Log { id, line } => WorkerEvent::Log {
                id: *id,
                line: line.clone(),
            },
            WorkerEvent::Deleted { id, message } => WorkerEvent::Deleted {
                id: *id,
                message: message.clone(),
            },
            WorkerEvent::Renamed { id, old_name, new_name } => WorkerEvent::Renamed {
                id: *id,
                old_name: old_name.clone(),
                new_name: new_name.clone(),
            },
            WorkerEvent::Error { id, message } => WorkerEvent::Error {
                id: *id,
                message: message.clone(),
            },
            WorkerEvent::PermissionRequested { id, request } => WorkerEvent::PermissionRequested {
                id: *id,
                request: request.duplicate(),
            },
            WorkerEvent::PermissionResolved { id, request_id, decision } => WorkerEvent::PermissionResolved {
                id: *id,
                request_id: *request_id,
                decision: decision.duplicate(),
            },
        }
    }
}

impl Duplicate for WorkerEvent {
    fn duplicate(&self) -> (r: Self) {
        self.clone()
    }
}

/// The answer to a permission request.
#[derive(Debug, PartialEq)]
pub enum PermissionDecision {
    Allow { permission_mode: Option<String>, allowed_tools: Option<Vec<String>> },
    Deny,
}

/// What a [`PermissionDecision`] holds.
#[verifier::ext_equal]
pub enum PermissionDecisionView {
    Allow { permission_mode: Option<Seq<char>>, allowed_tools: Option<Seq<Seq<char>>> },
    Deny,
}

impl DeepView for PermissionDecision {
    type V = PermissionDecisionView;

    open spec fn deep_view(&self) -> PermissionDecisionView {
        match self {
            PermissionDecision::Allow { permission_mode, allowed_tools } => PermissionDecisionView::Allow {
                permission_mode: permission_mode.deep_view(),
                allowed_tools: allowed_tools.deep_view(),
            },
            PermissionDecision::Deny => PermissionDecisionView::Deny,
        }
    }
}

impl Clone for PermissionDecision {
    fn clone(&self) -> (r: Self)
        ensures
            r.deep_view() == self.deep_view(),
    {
        match self {
            PermissionDecision::Allow { permission_mode, allowed_tools } => PermissionDecision::Allow {
                permission_mode: permission_mode.duplicate(),
                allowed_tools: allowed_tools.duplicate(),
            },
            PermissionDecision::Deny => PermissionDecision::Deny,
        }
    }
}

impl Duplicate for PermissionDecision {
    fn duplicate(&self) -> (r: Self) {
        self.clone()
    }
}

/// A step that waits for permission to start its agent.
#[derive(Debug)]
pub struct PermissionRequest {
    pub request_id: u64,
    pub step_name: String,
    pub description: Option<String>,
    pub permission_mode: Option<String>,
    pub allowed_tools: Option<Vec<String>>,
}

/// What a [`PermissionRequest`] holds.
#[verifier::ext_equal]
pub struct PermissionRequestView {
    pub request_id: u64,
    pub step_name: Seq<char>,
    pub description: Option<Seq<char>>,
    pub permission_mode: Option<Seq<char>>,
    pub allowed_tools: Option<Seq<Seq<char>>>,
}

impl DeepView for PermissionRequest {
    type V = PermissionRequestView;

    open spec fn deep_view(&self) -> PermissionRequestView {
        PermissionRequestView {
            request_id: self.request_id,
            step_name: self.step_name@,
            description: self.description.deep_view(),
            permission_mode: self.permission_mode.deep_view(),
            allowed_tools: self.allowed_tools.deep_view(),
        }
    }
}

impl Clone for PermissionRequest {
    fn clone(&self) -> (r: Self)
        ensures
            r.deep_view() == self.deep_view(),
    {
        PermissionRequest {
            request_id: self.request_id,
            step_name: self.step_name.clone(),
            description: self.description.duplicate(),
            permission_mode: self.permission_mode.duplicate(),
            allowed_tools: self.allowed_tools.duplicate(),
        }
    }
}

impl Duplicate for PermissionRequest {
    fn duplicate(&self) -> (r: Self) {
        self.clone()
    }
}

impl Default for CreateWorkerRequest {
    fn default() -> (r: Self)
        ensures
            r.deep_view() == CreateWorkerRequestView::open(),
    {
        CreateWorkerRequest {
            name: None,
            issue: None,
            agent: None,
            workflow: None,
            free_prompt: None,
            existing_worktree: None,
            permission_mode: None,
        }
    }
}

impl CreateWorkerRequestView {
    /// A request that leaves everything open.
    pub open spec fn open() -> CreateWorkerRequestView {
        CreateWorkerRequestView {
            name: None,
            issue: None,
            agent: None,
            workflow: None,
            free_prompt: None,
            existing_worktree: None,
            permission_mode: None,
        }
    }
}

/// A command that nobody takes any more.
#[derive(Debug, Clone, Copy, PartialEq, Eq, Structural)]
pub enum HandleError {
    Creation,
    Deletion,
    Restart,
    Continuation,
    Rename,
    PermissionResponse,
}

impl HandleError {
    /// What could not be asked for.
    pub open spec fn what(self) -> Seq<char> {
        match self {
            HandleError::Creation => "worker creation"@,
            HandleError::Deletion => "worker deletion"@,
            HandleError::Restart => "worker restart"@,
            HandleError::Continuation => "worker continuation"@,
            HandleError::Rename => "worker rename"@,
            HandleError::PermissionResponse => "permission response"@,
        }
    }

    /// The text of an error.
    pub open spec fn text(self) -> Seq<char> {
        "failed to enqueue "@ + self.what() + ": sending on a closed channel"@
    }

    /// Returns the text of an error.
    pub fn message(&self) -> (r: String)
        ensures
            r@ == self.text(),
    {
        let what = match self {
            HandleError::Creation => "worker creation",
            HandleError::Deletion => "worker deletion",
            HandleError::Restart => "worker restart",
            HandleError::Continuation => "worker continuation",
            HandleError::Rename => "worker rename",
            HandleError::PermissionResponse => "permission response",
        };
        cat3("failed to enqueue ", what, ": sending on a closed channel")
    }
}

/// The way to the manager: the commands that are on their way, and whether anyone still takes them.
#[derive(Debug)]
pub struct WorkerHandle {
    pub queue: Vec<WorkerCommand>,
    pub open: bool,
}

/// What a [`WorkerHandle`] holds.
#[verifier::ext_equal]
pub struct WorkerHandleView {
    pub queue: Seq<WorkerCommandView>,
    pub open: bool,
}

impl DeepView for WorkerHandle {
    type V = WorkerHandleView;

    open spec fn deep_view(&self) -> WorkerHandleView {
        WorkerHandleView {
            queue: self.queue.deep_view(),
            open: self.open,
        }
    }
}

impl WorkerHandleView {
    /// With one more command on its way, where anyone takes it.
    pub open spec fn sent(self, command: WorkerCommandView) -> WorkerHandleView {
        if self.open {
            WorkerHandleView { queue: self.queue.push(command), ..self }
        } else {
            self
        }
    }
}

impl WorkerHandle {
    /// Returns an open way with nothing on it.
    pub fn new() -> (r: Self)
        ensures
            r.deep_view() == (WorkerHandleView { queue: seq![], open: true }),
    {
        let r = WorkerHandle { queue: Vec::new(), open: true };
        assert(r.queue.deep_view() =~= seq![]);
        r
    }

    fn send(&mut self, command: WorkerCommand, error: HandleError) -> (r: Result<(), HandleError>)
        ensures
            final(self).deep_view() == old(self).deep_view().sent(command.deep_view()),
            r == (if old(self).open {
                Ok::<(), HandleError>(())
            } else {
                Err(error)
            }),
    {
        if self.open {
            let ghost before = self.queue.deep_view();
            self.queue.push(command);
            assert(self.queue.deep_view() =~= before.push(command.deep_view()));
            Ok(())
        } else {
            Err(error)
        }
    }

    /// Asks for a new worker.
    pub fn create_worker(&mut self, request: CreateWorkerRequest) -> (r: Result<(), HandleError>)
        ensures
            final(self).deep_view() == old(self).deep_view().sent(
                WorkerCommandView::Create(request.deep_view()),
            ),
            r == (if old(self).open {
                Ok::<(), HandleError>(())
            } else {
                Err(HandleError::Creation)
            }),
    {
        self.send(WorkerCommand::Create(request), HandleError::Creation)
    }

    /// Asks for a worker to be deleted.
    pub fn delete_worker(&mut self, id: WorkerId) -> (r: Result<(), HandleError>)
        ensures
            final(self).deep_view() == old(self).deep_view().sent(
                WorkerCommandView::Delete { id },
            ),
            r == (if old(self).open {
                Ok::<(), HandleError>(())
            } else {
                Err(HandleError::Deletion)
            }),
    {
        self.send(WorkerCommand::Delete { id }, HandleError::Deletion)
    }

    /// Asks for a worker to be started again.
    pub fn restart_worker(&mut self, id: WorkerId) -> (r: Result<(), HandleError>)
        ensures
            final(self).deep_view() == old(self).deep_view().sent(
                WorkerCommandView::Restart { id },
            ),
            r == (if old(self).open {
                Ok::<(), HandleError>(())
            } else {
                Err(HandleError::Restart)
            }),
    {
        self.send(WorkerCommand::Restart { id }, HandleError::Restart)
    }

    /// Asks for a worker to go on with another prompt.
    pub fn continue_worker(
        &mut self,
        id: WorkerId,
        prompt: String,
        permission_mode: Option<String>,
    ) -> (r: Result<(), HandleError>)
        ensures
            final(self).deep_view() == old(self).deep_view().sent(
                WorkerCommandView::Continue {
                    id,
                    prompt: prompt@,
                    permission_mode: permission_mode.deep_view(),
                },
            ),
            r == (if old(self).open {
                Ok::<(), HandleError>(())
            } else {
                Err(HandleError::Continuation)
            }),
    {
        self.send(
            WorkerCommand::Continue { id, prompt, permission_mode },
            HandleError::Continuation,
        )
    }

    /// Asks for a worker to get another name.
    pub fn rename_worker(&mut self, id: WorkerId, new_name: String) -> (r: Result<
        (),
        HandleError,
    >)
        ensures
            final(self).deep_view() == old(self).deep_view().sent(
                WorkerCommandView::Rename { id, new_name: new_name@ },
            ),
            r == (if old(self).open {
                Ok::<(), HandleError>(())
            } else {
                Err(HandleError::Rename)
            }),
    {
        self.send(WorkerCommand::Rename { id, new_name }, HandleError::Rename)
    }

    /// Answers a permission request.
    pub fn respond_permission(
        &mut self,
        id: WorkerId,
        request_id: u64,
        decision: PermissionDecision,
    ) -> (r: Result<(), HandleError>)
        ensures
            final(self).deep_view() == old(self).deep_view().sent(
                WorkerCommandView::PermissionResponse {
                    id,
                    request_id,
                    decision: decision.deep_view(),
                },
            ),
            r == (if old(self).open {
                Ok::<(), HandleError>(())
            } else {
                Err(HandleError::PermissionResponse)
            }),
    {
        self.send(
            WorkerCommand::PermissionResponse { id, request_id, decision },
            HandleError::PermissionResponse,
        )
    }

    /// Takes out the commands that are on their way.
    pub fn take_commands(&mut self) -> (r: Vec<WorkerCommand>)
        ensures
            r.deep_view() == old(self).deep_view().queue,
            final(self).deep_view() == (WorkerHandleView {
                queue: seq![],
                ..old(self).deep_view()
            }),
    {
        let mut out: Vec<WorkerCommand> = Vec::new();
        std::mem::swap(&mut out, &mut self.queue);
        assert(self.queue.deep_view() =~= seq![]);
        out
    }
}

} // verus!
