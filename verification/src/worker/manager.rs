//! The manager of the workers: what it keeps, and what each command does to it.
use crate::config::{
    ClaudeStep, ClaudeStepView, Config, ConfigView, Workflow, WorkflowStep, WorkflowStepView,
    WorkflowView,
};
use crate::config;
use crate::model::{self, Duplicate};
use crate::paths;
use crate::product::{Product, ProductView};
use crate::state::{ManagerState, ManagerStateView, WorkerRecord, WorkerRecordView};
use crate::text::{
    self, cat2, cat3, cat4, cat5, cat7, i64_text, same, trim, u64_text, usize_text, usize_text_3,
};
use crate::worker::name_registry::{self, NameConflictError, NameRegistry};
use crate::worker::name_validator::{self, NameValidationError, NameValidator};
use crate::worker::runtime::{self, WorkerRuntime, WorkerRuntimeView};
use crate::worker::{
    CreateWorkerRequest, CreateWorkerRequestView, PermissionDecision, PermissionDecisionView,
    PermissionRequest, PermissionRequestView, WorkerEvent, WorkerEventView, WorkerId,
    WorkerSnapshot, WorkerSnapshotView, WorkerStatus,
};
use vstd::prelude::*;

verus! {

/// A permission request that waits for its answer.
#[derive(Debug, Clone, Copy, PartialEq, Eq, Structural)]
pub struct PendingPermission {
    pub request_id: u64,
    pub worker_id: WorkerId,
}

/// What the manager wants done outside.
#[derive(Debug)]
pub enum ManagerEffect {
    /// Report an event to the dashboard.
    Report(WorkerEvent),
    /// Save the state of the manager.
    SaveManager(ManagerState),
    /// Save a worker.
    SaveWorker(WorkerRecord),
    /// Delete what is kept of a worker.
    DeleteWorkerFile { name: String },
    /// Start the agent of a worker.
    StartAgent { id: WorkerId },
    /// Cancel the agent of a worker and wait for its end.
    StopAgent { id: WorkerId },
    /// Answer a permission request.
    Answer { request_id: u64, decision: PermissionDecision },
    /// Write a warning to the error output.
    Warn { message: String },
}

/// What a [`ManagerEffect`] holds.
#[verifier::ext_equal]
pub enum ManagerEffectView {
    Report(WorkerEventView),
    SaveManager(ManagerStateView),
    SaveWorker(WorkerRecordView),
    DeleteWorkerFile { name: Seq<char> },
    StartAgent { id: WorkerId },
    StopAgent { id: WorkerId },
    Answer { request_id: u64, decision: PermissionDecisionView },
    Warn { message: Seq<char> },
}

impl DeepView for ManagerEffect {
    type V = ManagerEffectView;

    open spec fn deep_view(&self) -> ManagerEffectView {
        match self {
            ManagerEffect::Report(a) => ManagerEffectView::Report(a.deep_view()),
            ManagerEffect::SaveManager(a) => ManagerEffectView::SaveManager(a.deep_view()),
            ManagerEffect::SaveWorker(a) => ManagerEffectView::SaveWorker(a.deep_view()),
            ManagerEffect::DeleteWorkerFile { name } => ManagerEffectView::DeleteWorkerFile {
                name: name@,
            },
            ManagerEffect::StartAgent { id } => ManagerEffectView::StartAgent {
                id: *id,
            },
            ManagerEffect::StopAgent { id } => ManagerEffectView::StopAgent {
                id: *id,
            },
            ManagerEffect::Answer { request_id, decision } => ManagerEffectView::Answer {
                request_id: *request_id,
                decision: decision.deep_view(),
            },
            ManagerEffect::Warn { message } => ManagerEffectView::Warn {
                message: message@,
            },
        }
    }
}

/// The worktree of a new worker; `fresh` tells that it is yet to be made.
#[derive(Debug)]
pub struct WorktreePlan {
    pub path: String,
    pub branch: String,
    pub rel: String,
    pub fresh: bool,
}

/// What a [`WorktreePlan`] holds.
#[verifier::ext_equal]
pub struct WorktreePlanView {
    pub path: Seq<char>,
    pub branch: Seq<char>,
    pub rel: Seq<char>,
    pub fresh: bool,
}

impl DeepView for WorktreePlan {
    type V = WorktreePlanView;

    open spec fn deep_view(&self) -> WorktreePlanView {
        WorktreePlanView {
            path: self.path@,
            branch: self.branch@,
            rel: self.rel@,
            fresh: self.fresh,
        }
    }
}

/// What goes with a worker that is deleted.
#[derive(Debug)]
pub struct DeletePlan {
    pub name: String,
    pub worktree_path: String,
    pub branch: String,
}

/// What a [`DeletePlan`] holds.
#[verifier::ext_equal]
pub struct DeletePlanView {
    pub name: Seq<char>,
    pub worktree_path: Seq<char>,
    pub branch: Seq<char>,
}

impl DeepView for DeletePlan {
    type V = DeletePlanView;

    open spec fn deep_view(&self) -> DeletePlanView {
        DeletePlanView {
            name: self.name@,
            worktree_path: self.worktree_path@,
            branch: self.branch@,
        }
    }
}

/// How a command ended and what it wrote.
#[derive(Debug)]
pub struct CommandOutput {
    pub success: bool,
    pub status: String,
    pub stdout: String,
    pub stderr: String,
}

/// What a [`CommandOutput`] holds.
#[verifier::ext_equal]
pub struct CommandOutputView {
    pub success: bool,
    pub status: Seq<char>,
    pub stdout: Seq<char>,
    pub stderr: Seq<char>,
}

impl DeepView for CommandOutput {
    type V = CommandOutputView;

    open spec fn deep_view(&self) -> CommandOutputView {
        CommandOutputView {
            success: self.success,
            status: self.status@,
            stdout: self.stdout@,
            stderr: self.stderr@,
        }
    }
}

/// Why a command failed.
#[derive(Debug)]
pub enum ManagerError {
    /// The text is no name.
    InvalidName(NameValidationError),
    /// The name has been taken.
    NameTaken(String),
    /// The name that was made up has been taken.
    Registration(NameConflictError),
    /// There is no such worker.
    NotFound(WorkerId),
    /// Another worker has the new name.
    Rename(NameConflictError),
    /// The file of the worker could not be renamed.
    RenameFile(String),
    /// Something outside went wrong.
    Outside(String),
}

/// The text of a worker that is not there.
pub open spec fn not_found_text(id: WorkerId) -> Seq<char> {
    "worker WorkerId("@ + text::decimal(id.0 as nat) + ") not found"@
}

impl ManagerError {
    /// The text of an error.
    pub open spec fn text(self) -> Seq<char> {
        match self {
            ManagerError::InvalidName(e) => "Invalid worker name: "@ + e.text(),
            ManagerError::NameTaken(name) => "Worker name '"@ + name@ + "' is already in use"@,
            ManagerError::Registration(e) => "Failed to register worker name: "@ + e.text(),
            ManagerError::NotFound(id) => not_found_text(id),
            ManagerError::Rename(e) => "Failed to rename worker: "@ + e.text(),
            ManagerError::RenameFile(e) => "Failed to rename worker state file: "@ + e@,
            ManagerError::Outside(message) => message@,
        }
    }

    /// Returns the text of an error.
    pub fn message(&self) -> (r: String)
        ensures
            r@ == self.text(),
    {
        match self {
            ManagerError::InvalidName(e) => cat2("Invalid worker name: ", e.message().as_str()),
            ManagerError::NameTaken(name) => cat3(
                "Worker name '",
                name.as_str(),
                "' is already in use",
            ),
            ManagerError::Registration(e) => cat2(
                "Failed to register worker name: ",
                e.message().as_str(),
            ),
            ManagerError::NotFound(id) => cat3(
                "worker WorkerId(",
                usize_text(id.0).as_str(),
                ") not found",
            ),
            ManagerError::Rename(e) => cat2("Failed to rename worker: ", e.message().as_str()),
            ManagerError::RenameFile(e) => cat2(
                "Failed to rename worker state file: ",
                e.as_str(),
            ),
            ManagerError::Outside(message) => message.clone(),
        }
    }
}

/// The manager, with what it wants done outside, in order.
pub struct WorkerManager {
    pub repo_root: String,
    pub product: Product,
    pub config: Config,
    pub next_id: usize,
    pub workers: Vec<WorkerRuntime>,
    pub pending_permissions: Vec<PendingPermission>,
    pub name_registry: NameRegistry,
    pub name_validator: NameValidator,
    pub effects: Vec<ManagerEffect>,
}

/// What a [`WorkerManager`] holds.
#[verifier::ext_equal]
pub struct ManagerView {
    pub repo_root: Seq<char>,
    pub product: ProductView,
    pub config: ConfigView,
    pub next_id: usize,
    pub workers: Seq<WorkerRuntimeView>,
    pub pending: Seq<PendingPermission>,
    pub names: Map<Seq<char>, WorkerId>,
    pub effects: Seq<ManagerEffectView>,
}

impl DeepView for WorkerManager {
    type V = ManagerView;

    open spec fn deep_view(&self) -> ManagerView {
        ManagerView {
            repo_root: self.repo_root@,
            product: self.product.deep_view(),
            config: self.config.deep_view(),
            next_id: self.next_id,
            workers: self.workers.deep_view(),
            pending: self.pending_permissions@,
            names: self.name_registry@,
            effects: self.effects.deep_view(),
        }
    }
}

/// The numbers of some workers.
pub open spec fn worker_ids(workers: Seq<WorkerRuntimeView>) -> Seq<WorkerId> {
    Seq::new(workers.len(), |i: int| workers[i].snapshot.id)
}

/// The pending requests of other workers.
pub open spec fn pending_of_others(pending: Seq<PendingPermission>, id: WorkerId) -> Seq<
    PendingPermission,
>
    decreases pending.len(),
{
    if pending.len() == 0 {
        seq![]
    } else if pending.last().worker_id == id {
        pending_of_others(pending.drop_last(), id)
    } else {
        pending_of_others(pending.drop_last(), id).push(pending.last())
    }
}

/// A denial for a request.
pub open spec fn denial(request: PendingPermission) -> ManagerEffectView {
    ManagerEffectView::Answer {
        request_id: request.request_id,
        decision: PermissionDecisionView::Deny,
    }
}

/// Denials for the pending requests of a worker.
pub open spec fn denials(pending: Seq<PendingPermission>, id: WorkerId) -> Seq<ManagerEffectView>
    decreases pending.len(),
{
    if pending.len() == 0 {
        seq![]
    } else if pending.last().worker_id == id {
        denials(pending.drop_last(), id).push(denial(pending.last()))
    } else {
        denials(pending.drop_last(), id)
    }
}

/// The numbers of some requests.
pub open spec fn request_ids(pending: Seq<PendingPermission>) -> Seq<u64> {
    Seq::new(pending.len(), |i: int| pending[i].request_id)
}

/// The name that is made up for a worker at a point in time, in seconds since 1970.
pub open spec fn default_name(id: WorkerId, now: i64) -> Seq<char> {
    "worker-"@ + text::decimal(id.0 as nat) + "-"@ + text::signed_decimal(now as int)
}

/// The name of the worktree that is made for a worker.
pub open spec fn worktree_name(id: WorkerId, now: i64) -> Seq<char> {
    "worker-"@ + text::decimal_3(id.0 as nat) + "-"@ + text::signed_decimal(now as int)
}

/// A step that runs an agent with a prompt of the user.
pub open spec fn prompt_step(
    name: Seq<char>,
    prompt: Seq<char>,
    permission_mode: Option<Seq<char>>,
    description: Seq<char>,
) -> WorkflowStepView {
    WorkflowStepView {
        name,
        command: None,
        claude: Some(
            ClaudeStepView {
                prompt,
                model: None,
                allowed_tools: None,
                permission_mode,
                extra_args: None,
                sandbox_mode: None,
            },
        ),
        description: Some(description),
    }
}

/// The workflow of a new worker: one step for a prompt of the user, else the workflow of the
/// given name, else the default one.
pub open spec fn workflow_for(
    config: ConfigView,
    product: ProductView,
    request: CreateWorkerRequestView,
    id: WorkerId,
) -> WorkflowView {
    match request.free_prompt {
        Some(prompt) => WorkflowView {
            name: "free-form-"@ + text::decimal(id.0 as nat),
            description: Some("On-demand "@ + product.short_name + " execution"@),
            steps: seq![
                prompt_step(
                    "Free Prompt"@,
                    prompt,
                    request.permission_mode,
                    "User supplied prompt"@,
                ),
            ],
        },
        None => {
            let found = match request.workflow {
                Some(name) => model::first_index(config::workflow_names(config.workflows), name),
                None => None,
            };
            match found {
                Some(i) => config.workflows[i],
                None => config.workflows[config.default_index()],
            }
        },
    }
}

/// A new worker as the dashboard shows it.
pub open spec fn new_snapshot(
    id: WorkerId,
    name: Seq<char>,
    request: CreateWorkerRequestView,
    plan: WorktreePlanView,
    workflow: WorkflowView,
    product: ProductView,
) -> WorkerSnapshotView {
    WorkerSnapshotView {
        id,
        name,
        issue: request.issue,
        agent: match request.agent {
            Some(a) => a,
            None => product.name + " (simulated)"@,
        },
        worktree: plan.rel,
        branch: plan.branch,
        status: WorkerStatus::Running,
        last_event: "Worktree provisioned"@,
        workflow: workflow.name,
        total_steps: workflow.steps.len() as usize,
        current_step: None,
        session_id: None,
    }
}

/// Some workers with one more, in place of one of the same number where there is one.
pub open spec fn with_worker(
    workers: Seq<WorkerRuntimeView>,
    rt: WorkerRuntimeView,
) -> Seq<WorkerRuntimeView> {
    match model::first_index(worker_ids(workers), rt.snapshot.id) {
        Some(i) => workers.update(i, rt),
        None => workers.push(rt),
    }
}

/// Log events for some lines.
pub open spec fn log_reports(id: WorkerId, lines: Seq<Seq<char>>) -> Seq<ManagerEffectView> {
    Seq::new(
        lines.len(),
        |i: int| ManagerEffectView::Report(WorkerEventView::Log { id, line: lines[i] }),
    )
}

/// A worker that is read back, with the lines that its log keeps.
pub open spec fn restored_runtime(
    snapshot: WorkerSnapshotView,
    worktree_path: Seq<char>,
    record: WorkerRecordView,
    default_sandbox_mode: bool,
) -> WorkerRuntimeView {
    let fresh = runtime::fresh_runtime(
        snapshot,
        worktree_path,
        record.snapshot.branch,
        record.workflow,
        default_sandbox_mode,
    );
    WorkerRuntimeView {
        completed_steps: record.completed_steps,
        logs: model::most_recent(record.logs, runtime::MAX_LOGS as nat),
        session_histories: record.session_history,
        ..fresh
    }
}

/// A worker that is read back as the dashboard shows it: idle where its worktree is still
/// there, else archived.
pub open spec fn restored_snapshot(record: WorkerRecordView, exists: bool) -> WorkerSnapshotView {
    WorkerSnapshotView {
        id: WorkerId(record.snapshot.id),
        name: record.snapshot.name,
        issue: record.snapshot.issue,
        agent: record.snapshot.agent,
        worktree: record.snapshot.worktree,
        branch: record.snapshot.branch,
        status: if exists {
            WorkerStatus::Idle
        } else {
            WorkerStatus::Archived
        },
        last_event: if exists {
            "Restored from saved state"@
        } else {
            "Archived (worktree removed)"@
        },
        workflow: record.workflow.name,
        total_steps: record.workflow.steps.len() as usize,
        current_step: None,
        session_id: record.snapshot.session_id,
    }
}

/// The warning that a name could not be taken.
pub open spec fn taken_warning(name: Seq<char>, holder: WorkerId) -> Seq<char> {
    "Warning: Failed to register worker name '"@ + name + "': "@ + ("Worker name '"@ + name
        + "' is already in use by worker WorkerId("@ + text::decimal(holder.0 as nat) + ")"@)
}

impl ManagerView {
    /// Whether there is a workflow to fall back on, no two workers share a number, and the
    /// next number is above all of them.
    pub open spec fn wf(self) -> bool {
        &&& self.config.workflows.len() > 0
        &&& worker_ids(self.workers).no_duplicates()
        &&& forall|i: int|
            0 <= i < self.workers.len() ==> (#[trigger] self.workers[i]).snapshot.id.0
                < self.next_id
    }

    /// The place of a worker.
    pub open spec fn find(self, id: WorkerId) -> Option<int> {
        model::first_index(worker_ids(self.workers), id)
    }

    /// With something more to be done outside.
    pub open spec fn wanting(self, effect: ManagerEffectView) -> ManagerView {
        ManagerView { effects: self.effects.push(effect), ..self }
    }

    /// With an event to report.
    pub open spec fn reporting(self, event: WorkerEventView) -> ManagerView {
        self.wanting(ManagerEffectView::Report(event))
    }

    /// With another next number, which is saved.
    pub open spec fn numbered(self, next_id: usize) -> ManagerView {
        ManagerView { next_id, ..self }.wanting(
            ManagerEffectView::SaveManager(ManagerStateView { next_id }),
        )
    }

    /// With a worker saved, where it is there.
    pub open spec fn saving(self, id: WorkerId) -> ManagerView {
        match self.find(id) {
            Some(i) => self.wanting(
                ManagerEffectView::SaveWorker(runtime::record_of(self.workers[i])),
            ),
            None => self,
        }
    }

    /// With all pending requests of a worker denied.
    pub open spec fn cancelling(self, id: WorkerId) -> ManagerView {
        ManagerView {
            pending: pending_of_others(self.pending, id),
            effects: self.effects + denials(self.pending, id),
            ..self
        }
    }

    /// With one worker changed.
    pub open spec fn with_runtime(self, i: int, rt: WorkerRuntimeView) -> ManagerView {
        ManagerView { workers: self.workers.update(i, rt), ..self }
    }

    /// With a new worker on its way.
    pub open spec fn created(
        self,
        id: WorkerId,
        name: Seq<char>,
        request: CreateWorkerRequestView,
        plan: WorktreePlanView,
    ) -> ManagerView {
        let workflow = workflow_for(self.config, self.product, request, id);
        let snapshot = new_snapshot(id, name, request, plan, workflow, self.product);
        let announced = self.reporting(WorkerEventView::Created(snapshot));
        let noted = match request.workflow {
            Some(requested) => if requested != workflow.name {
                announced.reporting(
                    WorkerEventView::Log {
                        id,
                        line: "Requested workflow '"@ + requested + "' not found. Using '"@
                            + workflow.name + "' instead"@,
                    },
                )
            } else {
                announced
            },
            None => announced,
        };
        let rt = runtime::fresh_runtime(
            snapshot,
            plan.path,
            plan.branch,
            workflow,
            self.config.default_sandbox_mode,
        );
        let started = noted.wanting(ManagerEffectView::StartAgent { id });
        ManagerView { workers: with_worker(started.workers, rt), ..started }.wanting(
            ManagerEffectView::SaveWorker(runtime::record_of(rt)),
        )
    }

    /// With a stopped worker started over.
    pub open spec fn restarted(self, id: WorkerId) -> ManagerView {
        let i = self.find(id)->0;
        let snapshot = WorkerSnapshotView {
            status: WorkerStatus::Running,
            last_event: "Restart requested"@,
            current_step: None,
            ..self.workers[i].snapshot
        };
        self.with_runtime(
            i,
            WorkerRuntimeView { snapshot, completed_steps: 0, ..self.workers[i] },
        ).reporting(WorkerEventView::Updated(snapshot)).wanting(
            ManagerEffectView::StartAgent { id },
        ).saving(id)
    }

    /// With a stopped worker going on with one more step.
    pub open spec fn continued(
        self,
        id: WorkerId,
        prompt: Seq<char>,
        permission_mode: Option<Seq<char>>,
    ) -> ManagerView {
        let i = self.find(id)->0;
        let before = self.workers[i];
        let steps = before.workflow.steps.push(
            prompt_step("Continue"@, prompt, permission_mode, "User follow-up instruction"@),
        );
        let snapshot = WorkerSnapshotView {
            status: WorkerStatus::Running,
            last_event: "Continue with new instruction"@,
            total_steps: steps.len() as usize,
            ..before.snapshot
        };
        self.with_runtime(
            i,
            WorkerRuntimeView {
                snapshot,
                workflow: WorkflowView { steps, ..before.workflow },
                completed_steps: before.workflow.steps.len() as usize,
                ..before
            },
        ).reporting(WorkerEventView::Updated(snapshot)).reporting(
            WorkerEventView::Log { id, line: "追加指示を受信しました"@ },
        ).wanting(ManagerEffectView::StartAgent { id }).saving(id)
    }

    /// With a worker under another name, the names and the dashboard told.
    pub open spec fn renamed(self, id: WorkerId, new_name: Seq<char>) -> ManagerView {
        let i = self.find(id)->0;
        let old_name = self.workers[i].snapshot.name;
        let snapshot = WorkerSnapshotView { name: new_name, ..self.workers[i].snapshot };
        ManagerView {
            names: name_registry::renamed(self.names, old_name, new_name, id),
            ..self.with_runtime(i, WorkerRuntimeView { snapshot, ..self.workers[i] })
        }.reporting(WorkerEventView::Renamed { id, old_name, new_name }).reporting(
            WorkerEventView::Updated(snapshot),
        )
    }

    /// With a worker read back; `exists` tells whether its worktree is still there.
    pub open spec fn restored(self, record: WorkerRecordView, exists: bool) -> ManagerView {
        let id = WorkerId(record.snapshot.id);
        let name = record.snapshot.name;
        let numbered = if record.snapshot.id >= self.next_id {
            self.numbered((record.snapshot.id + 1) as usize)
        } else {
            self
        };
        let named = if self.names.contains_key(name) {
            numbered.wanting(
                ManagerEffectView::Warn { message: taken_warning(name, self.names[name]) },
            )
        } else {
            ManagerView { names: self.names.insert(name, id), ..numbered }
        };
        let snapshot = restored_snapshot(record, exists);
        let placed = if exists {
            let rt = restored_runtime(
                snapshot,
                paths::joined(self.repo_root, record.snapshot.worktree),
                record,
                self.config.default_sandbox_mode,
            );
            ManagerView { workers: with_worker(named.workers, rt), ..named }
        } else {
            named
        };
        let announced = placed.reporting(WorkerEventView::Created(snapshot));
        ManagerView { effects: announced.effects + log_reports(id, record.logs), ..announced }
    }

    /// With some workers read back.
    pub open spec fn restored_all(
        self,
        records: Seq<WorkerRecordView>,
        exists: Seq<bool>,
    ) -> ManagerView
        decreases records.len(),
    {
        if records.len() == 0 {
            self
        } else {
            self.restored_all(records.drop_last(), exists).restored(
                records.last(),
                exists[records.len() - 1],
            )
        }
    }

    /// With a permission request that waits for its answer, which the dashboard is told.
    pub open spec fn prompted(self, id: WorkerId, request: PermissionRequestView) -> ManagerView {
        let entry = PendingPermission { request_id: request.request_id, worker_id: id };
        let pending = match model::first_index(request_ids(self.pending), request.request_id) {
            Some(i) => self.pending.update(i, entry),
            None => self.pending.push(entry),
        };
        ManagerView { pending, ..self }.reporting(
            WorkerEventView::PermissionRequested { id, request },
        )
    }

    /// With the answer to a permission request passed on, where one waits.
    pub open spec fn responded(
        self,
        id: WorkerId,
        request_id: u64,
        decision: PermissionDecisionView,
    ) -> ManagerView {
        match model::first_index(request_ids(self.pending), request_id) {
            Some(i) => ManagerView { pending: self.pending.remove(i), ..self }.wanting(
                ManagerEffectView::Answer { request_id, decision },
            ).reporting(WorkerEventView::PermissionResolved { id, request_id, decision }),
            None => self.reporting(
                WorkerEventView::Error {
                    id: Some(id),
                    message: "permission request "@ + text::decimal(request_id as nat)
                        + " not found"@,
                },
            ),
        }
    }

    /// With the agent of a worker to be stopped, where the worker is there.
    pub open spec fn stopping(self, id: WorkerId) -> ManagerView {
        match self.find(id) {
            Some(_) => self.wanting(ManagerEffectView::StopAgent { id }),
            None => self,
        }
    }

    /// With the name of a worker given back, because its file could not get the new one.
    pub open spec fn name_given_back(
        self,
        id: WorkerId,
        old_name: Seq<char>,
        new_name: Seq<char>,
    ) -> ManagerView {
        ManagerView {
            names: if name_registry::may_take(self.names, old_name, id) {
                name_registry::renamed(self.names, new_name, old_name, id)
            } else {
                self.names
            },
            ..self
        }
    }

    /// With what git said where it failed for a worker.
    pub open spec fn told_failure(
        self,
        id: WorkerId,
        what: Seq<char>,
        output: CommandOutputView,
    ) -> ManagerView {
        if output.success {
            self
        } else {
            self.reporting(
                WorkerEventView::Error {
                    id: Some(id),
                    message: what + " failed: stdout='"@ + text::trimmed(output.stdout)
                        + "' stderr='"@ + text::trimmed(output.stderr) + "'"@,
                },
            )
        }
    }

    /// With the deletion of a worker ended.
    pub open spec fn deletion_ended(
        self,
        id: WorkerId,
        plan: DeletePlanView,
        output: CommandOutputView,
    ) -> ManagerView {
        self.told_failure(id, "git branch -D "@ + plan.branch, output).reporting(
            WorkerEventView::Deleted { id, message: "Removed worktree "@ + plan.worktree_path },
        ).wanting(ManagerEffectView::DeleteWorkerFile { name: plan.name }).cancelling(id)
    }
}

fn effect_push(effects: &mut Vec<ManagerEffect>, effect: ManagerEffect)
    ensures
        final(effects).deep_view() == old(effects).deep_view().push(effect.deep_view()),
{
    let ghost before = effects.deep_view();
    effects.push(effect);
    assert(effects.deep_view() =~= before.push(effect.deep_view()));
}

fn step_for_prompt(
    name: &str,
    prompt: String,
    permission_mode: Option<String>,
    description: &str,
) -> (r: WorkflowStep)
    ensures
        r.deep_view() == prompt_step(
            name@,
            prompt@,
            permission_mode.deep_view(),
            description@,
        ),
{
    WorkflowStep {
        name: name.to_owned(),
        command: None,
        claude: Some(
            ClaudeStep {
                prompt,
                model: None,
                allowed_tools: None,
                permission_mode,
                extra_args: None,
                sandbox_mode: None,
            },
        ),
        description: Some(description.to_owned()),
    }
}

/// Returns the workflow of a new worker.
fn choose_workflow(
    config: &Config,
    product: &Product,
    request: &CreateWorkerRequest,
    id: WorkerId,
) -> (r: Workflow)
    requires
        config.workflows.len() > 0,
    ensures
        r.deep_view() == workflow_for(
            config.deep_view(),
            product.deep_view(),
            request.deep_view(),
            id,
        ),
{
    if let Some(prompt) = &request.free_prompt {
        let step = step_for_prompt(
            "Free Prompt",
            prompt.clone(),
            request.permission_mode.duplicate(),
            "User supplied prompt",
        );
        let r = Workflow {
            name: cat2("free-form-", usize_text(id.0).as_str()),
            description: Some(cat3("On-demand ", product.short_name.as_str(), " execution")),
            steps: vec![step],
        };
        assert(r.deep_view() =~= workflow_for(
            config.deep_view(),
            product.deep_view(),
            request.deep_view(),
            id,
        ));
        return r;
    }
    if let Some(name) = &request.workflow {
        if let Some(workflow) = config.workflow_by_name(name.as_str()) {
            return workflow.clone();
        }
    }
    config.default_workflow().clone()
}

/// Returns the place of a worker.
fn find_worker(workers: &Vec<WorkerRuntime>, id: WorkerId) -> (r: Option<usize>)
    ensures
        match r {
            Some(i) => i < workers.len() && model::first_index(
                worker_ids(workers.deep_view()),
                id,
            ) == Some(i as int),
            None => model::first_index(worker_ids(workers.deep_view()), id) is None,
        },
{
    let ghost ids = worker_ids(workers.deep_view());
    proof {
        model::first_index_is_first(ids, id);
    }
    for i in 0..workers.len()
        invariant
            ids == worker_ids(workers.deep_view()),
            forall|j: int| 0 <= j < i ==> ids[j] != id,
            match model::first_index(ids, id) {
                Some(k) => 0 <= k < ids.len() && ids[k] == id && forall|j: int|
                    0 <= j < k ==> ids[j] != id,
                None => forall|j: int| 0 <= j < ids.len() ==> ids[j] != id,
            },
    {
        assert(ids[i as int] == workers@[i as int].snapshot.id);
        if workers[i].snapshot.id.0 == id.0 {
            return Some(i);
        }
    }
    None
}

/// Puts a worker among the others.
fn insert_worker(workers: &mut Vec<WorkerRuntime>, rt: WorkerRuntime)
    ensures
        final(workers).deep_view() == with_worker(old(workers).deep_view(), rt.deep_view()),
{
    let ghost before = workers.deep_view();
    let ghost view = rt.deep_view();
    match find_worker(workers, rt.snapshot.id) {
        Some(i) => {
            workers.set(i, rt);
            assert(workers.deep_view() =~= before.update(i as int, view));
        },
        None => {
            workers.push(rt);
            assert(workers.deep_view() =~= before.push(view));
        },
    }
}

/// A worker that takes a place keeps the numbers apart.
proof fn lemma_with_worker(workers: Seq<WorkerRuntimeView>, rt: WorkerRuntimeView, next_id: usize)
    requires
        worker_ids(workers).no_duplicates(),
        forall|i: int|
            0 <= i < workers.len() ==> (#[trigger] workers[i]).snapshot.id.0 < next_id,
        rt.snapshot.id.0 < next_id,
    ensures
        worker_ids(with_worker(workers, rt)).no_duplicates(),
        forall|i: int|
            0 <= i < with_worker(workers, rt).len() ==> (#[trigger] with_worker(
                workers,
                rt,
            )[i]).snapshot.id.0 < next_id,
        model::first_index(worker_ids(with_worker(workers, rt)), rt.snapshot.id) matches Some(i)
            && 0 <= i < with_worker(workers, rt).len() && with_worker(workers, rt)[i] == rt,
{
    let ids = worker_ids(workers);
    let after = worker_ids(with_worker(workers, rt));
    model::first_index_is_first(ids, rt.snapshot.id);
    model::first_index_is_first(after, rt.snapshot.id);
    match model::first_index(ids, rt.snapshot.id) {
        Some(k) => {
            assert(after =~= ids);
            assert(after[k] == rt.snapshot.id);
        },
        None => {
            assert(after =~= ids.push(rt.snapshot.id));
            assert(after[ids.len() as int] == rt.snapshot.id);
        },
    }
}

impl WorkerManager {
    /// Returns a manager without workers; `next_id` is the number of its first one.
    pub fn new(repo_root: String, product: Product, config: Config, next_id: usize) -> (r: Self)
        requires
            config.workflows.len() > 0,
        ensures
            r.deep_view() == (ManagerView {
                repo_root: repo_root@,
                product: product.deep_view(),
                config: config.deep_view(),
                next_id,
                workers: seq![],
                pending: seq![],
                names: Map::empty(),
                effects: seq![],
            }),
            r.deep_view().wf(),
    {
        let r = WorkerManager {
            repo_root,
            product,
            config,
            next_id,
            workers: Vec::new(),
            pending_permissions: Vec::new(),
            name_registry: NameRegistry::new(),
            name_validator: NameValidator::new(),
            effects: Vec::new(),
        };
        assert(r.workers.deep_view() =~= seq![]);
        assert(r.effects.deep_view() =~= seq![]);
        assert(r.pending_permissions@ =~= seq![]);
        r
    }

    fn want(&mut self, effect: ManagerEffect)
        ensures
            final(self).deep_view() == old(self).deep_view().wanting(effect.deep_view()),
    {
        effect_push(&mut self.effects, effect);
    }

    fn report(&mut self, event: WorkerEvent)
        ensures
            final(self).deep_view() == old(self).deep_view().reporting(event.deep_view()),
    {
        self.want(ManagerEffect::Report(event));
    }

    /// Reports that a command failed.
    pub fn report_error(&mut self, id: Option<WorkerId>, error: &ManagerError)
        ensures
            final(self).deep_view() == old(self).deep_view().reporting(
                WorkerEventView::Error { id, message: error.text() },
            ),
    {
        let message = error.message();
        self.report(WorkerEvent::Error { id, message });
    }

    /// Returns the place of a worker.
    pub fn find(&self, id: WorkerId) -> (r: Option<usize>)
        ensures
            match r {
                Some(i) => i < self.workers.len() && self.deep_view().find(id) == Some(i as int),
                None => self.deep_view().find(id) is None,
            },
    {
        find_worker(&self.workers, id)
    }

    fn persist_manager_state(&mut self)
        ensures
            final(self).deep_view() == old(self).deep_view().numbered(old(self).next_id),
    {
        let next_id = self.next_id;
        self.want(ManagerEffect::SaveManager(ManagerState { next_id }));
    }

    /// Has a worker saved, where it is there.
    pub fn persist_worker(&mut self, id: WorkerId)
        ensures
            final(self).deep_view() == old(self).deep_view().saving(id),
    {
        if let Some(i) = self.find(id) {
            let record = self.workers[i].record();
            self.want(ManagerEffect::SaveWorker(record));
        }
    }

    /// Begins the creation of a worker: gives it a number and a name. `now` is the time in
    /// seconds since 1970.
    pub fn handle_create(&mut self, request: &CreateWorkerRequest, now: i64) -> (r: Result<
        (WorkerId, String),
        ManagerError,
    >)
        requires
            old(self).deep_view().wf(),
            old(self).next_id < usize::MAX,
        ensures
            final(self).deep_view().wf(),
            ({
                let id = WorkerId(old(self).next_id);
                let numbered = old(self).deep_view().numbered((old(self).next_id + 1) as usize);
                let names = old(self).deep_view().names;
                match r {
                    Ok((new_id, name)) => {
                        &&& new_id == id
                        &&& match request.name {
                            Some(n) => name@ == n@ && name_validator::valid_name(n@),
                            None => name@ == default_name(id, now),
                        }
                        &&& !names.contains_key(name@)
                        &&& final(self).deep_view() == (ManagerView {
                            names: names.insert(name@, id),
                            ..numbered
                        })
                    },
                    Err(ManagerError::InvalidName(e)) => {
                        &&& request.name matches Some(n) && name_validator::verdict(n@, Err(e))
                        &&& final(self).deep_view() == numbered
                    },
                    Err(ManagerError::NameTaken(taken)) => {
                        &&& request.name matches Some(n) && name_validator::valid_name(n@)
                            && names.contains_key(n@) && taken@ == n@
                        &&& final(self).deep_view() == numbered
                    },
                    Err(ManagerError::Registration(NameConflictError::AlreadyExists(taken, holder)))
                        => {
                        &&& request.name is None
                        &&& taken@ == default_name(id, now)
                        &&& names.contains_key(taken@)
                        &&& holder == names[taken@]
                        &&& final(self).deep_view() == numbered
                    },
                    _ => false,
                }
            }),
    {
        let id = WorkerId(self.next_id);
        self.next_id = self.next_id + 1;
        self.persist_manager_state();
        assert(self.deep_view().wf());
        let name = match &request.name {
            Some(n) => {
                if let Err(e) = self.name_validator.validate(n.as_str()) {
                    return Err(ManagerError::InvalidName(e));
                }
                if !self.name_registry.is_available(n.as_str()) {
                    return Err(ManagerError::NameTaken(n.clone()));
                }
                n.clone()
            },
            None => cat4(
                "worker-",
                usize_text(id.0).as_str(),
                "-",
                i64_text(now).as_str(),
            ),
        };
        if let Err(e) = self.name_registry.register(name.clone(), id) {
            return Err(ManagerError::Registration(e));
        }
        Ok((id, name))
    }

    /// Returns the worktree of a new worker: the existing one that was asked for, else one
    /// that is named after the worker and the time.
    pub fn plan_worktree(&self, id: WorkerId, request: &CreateWorkerRequest, now: i64) -> (r:
        WorktreePlan)
        ensures
            match request.existing_worktree {
                Some((path, branch)) => {
                    &&& !r.fresh
                    &&& r.path@ == path@
                    &&& r.branch@ == branch@
                    &&& exists|rest: Option<Seq<char>>|
                        #[trigger] paths::may_leave(path@, self.repo_root@, rest) && r.rel@
                            == paths::shortened(path@, rest)
                    &&& forall|rest: Seq<char>| #[trigger]
                        paths::leads_to(self.repo_root@, path@, rest) ==> r.rel@ == rest
                },
                None => {
                    &&& r.fresh
                    &&& r.rel@ == ".worktrees/"@ + worktree_name(id, now)
                    &&& r.path@ == paths::joined(self.repo_root@, r.rel@)
                    &&& r.branch@ == "gensui/"@ + worktree_name(id, now)
                },
            },
    {
        match &request.existing_worktree {
            Some((path, branch)) => WorktreePlan {
                path: path.clone(),
                branch: branch.clone(),
                rel: paths::relative_to(path.as_str(), self.repo_root.as_str()),
                fresh: false,
            },
            None => {
                let name = cat4(
                    "worker-",
                    usize_text_3(id.0).as_str(),
                    "-",
                    i64_text(now).as_str(),
                );
                let rel = cat2(".worktrees/", name.as_str());
                let path = paths::join(self.repo_root.as_str(), rel.as_str());
                WorktreePlan { path, branch: cat2("gensui/", name.as_str()), rel, fresh: true }
            },
        }
    }

    /// Ends the creation of a worker whose worktree is there: announces it, starts its agent
    /// and has it saved.
    pub fn finish_create(
        &mut self,
        id: WorkerId,
        name: String,
        request: &CreateWorkerRequest,
        plan: WorktreePlan,
    )
        requires
            old(self).deep_view().wf(),
            id.0 < old(self).next_id,
        ensures
            final(self).deep_view() == old(self).deep_view().created(
                id,
                name@,
                request.deep_view(),
                plan.deep_view(),
            ),
            final(self).deep_view().wf(),
    {
        let ghost before = self.deep_view();
        let workflow = choose_workflow(&self.config, &self.product, request, id);
        let agent = match &request.agent {
            Some(a) => a.clone(),
            None => cat2(self.product.name.as_str(), " (simulated)"),
        };
        let snapshot = WorkerSnapshot {
            id,
            name,
            issue: request.issue.duplicate(),
            agent,
            worktree: plan.rel,
            branch: plan.branch.clone(),
            status: WorkerStatus::Running,
            last_event: "Worktree provisioned".to_owned(),
            workflow: workflow.name.clone(),
            total_steps: workflow.steps.len(),
            current_step: None,
            session_id: None,
        };
        self.report(WorkerEvent::Created(snapshot.clone()));
        if let Some(requested) = &request.workflow {
            if !same(requested.as_str(), workflow.name.as_str()) {
                let line = cat5(
                    "Requested workflow '",
                    requested.as_str(),
                    "' not found. Using '",
                    workflow.name.as_str(),
                    "' instead",
                );
                self.report(WorkerEvent::Log { id, line });
            }
        }
        let rt = WorkerRuntime::new(
            snapshot,
            plan.path,
            plan.branch,
            workflow,
            self.config.default_sandbox_mode,
        );
        let ghost view = rt.deep_view();
        self.want(ManagerEffect::StartAgent { id });
        let record = rt.record();
        insert_worker(&mut self.workers, rt);
        self.want(ManagerEffect::SaveWorker(record));
        proof {
            lemma_with_worker(before.workers, view, before.next_id);
        }
    }

    /// Denies all pending requests of a worker.
    pub fn cancel_pending_permissions_for_worker(&mut self, id: WorkerId)
        ensures
            final(self).deep_view() == old(self).deep_view().cancelling(id),
    {
        let ghost before = self.deep_view();
        let ghost pending = self.pending_permissions@;
        let mut kept: Vec<PendingPermission> = Vec::new();
        assert(pending.take(0) =~= seq![]);
        assert(before.effects + denials(pending.take(0), id) =~= before.effects);
        let count: usize = self.pending_permissions.len();
        for i in 0..count
            invariant
                count == pending.len(),
                self.pending_permissions@ == pending,
                before.pending == pending,
                kept@ == pending_of_others(pending.take(i as int), id),
                self.deep_view() == (ManagerView {
                    effects: before.effects + denials(pending.take(i as int), id),
                    ..before
                }),
        {
            assert(pending.take(i + 1).drop_last() =~= pending.take(i as int));
            let request = self.pending_permissions[i];
            if request.worker_id.0 == id.0 {
                self.want(
                    ManagerEffect::Answer {
                        request_id: request.request_id,
                        decision: PermissionDecision::Deny,
                    },
                );
                assert(self.effects.deep_view() =~= before.effects + denials(
                    pending.take(i + 1),
                    id,
                ));
            } else {
                kept.push(request);
            }
        }
        assert(pending.take(pending.len() as int) =~= pending);
        self.pending_permissions = kept;
    }

    /// Begins the deletion of a worker: its agent has to be stopped.
    pub fn handle_delete(&mut self, id: WorkerId) -> (r: Result<(), ManagerError>)
        ensures
            match old(self).deep_view().find(id) {
                Some(_) => r is Ok && final(self).deep_view() == old(self).deep_view().wanting(
                    ManagerEffectView::StopAgent { id },
                ),
                None => r == Err::<(), ManagerError>(ManagerError::NotFound(id))
                    && final(self).deep_view() == old(self).deep_view(),
            },
            final(self).deep_view() == old(self).deep_view().stopping(id),
    {
        match self.find(id) {
            Some(_) => {
                self.want(ManagerEffect::StopAgent { id });
                Ok(())
            },
            None => Err(ManagerError::NotFound(id)),
        }
    }

    /// Takes a worker out whose agent has been stopped; returns what goes with it.
    pub fn remove_stopped(&mut self, id: WorkerId) -> (r: DeletePlan)
        requires
            old(self).deep_view().wf(),
            old(self).deep_view().find(id) is Some,
        ensures
            ({
                let i = old(self).deep_view().find(id)->0;
                let rt = old(self).deep_view().workers[i];
                &&& final(self).deep_view() == (ManagerView {
                    workers: old(self).deep_view().workers.remove(i),
                    ..old(self).deep_view()
                })
                &&& r.deep_view() == (DeletePlanView {
                    name: rt.snapshot.name,
                    worktree_path: rt.worktree_path,
                    branch: rt.branch,
                })
            }),
            final(self).deep_view().wf(),
            final(self).deep_view().find(id) is None,
    {
        let ghost before = self.deep_view();
        let ghost ids = worker_ids(before.workers);
        proof {
            model::first_index_is_first(ids, id);
        }
        match self.find(id) {
            Some(i) => {
                let rt = self.workers.remove(i);
                assert(self.workers.deep_view() =~= before.workers.remove(i as int));
                assert(worker_ids(self.workers.deep_view()) =~= ids.remove(i as int));
                assert(worker_ids(self.workers.deep_view()).no_duplicates());
                proof {
                    model::first_index_is_first(worker_ids(self.workers.deep_view()), id);
                }
                DeletePlan {
                    name: rt.snapshot.name,
                    worktree_path: rt.worktree_path,
                    branch: rt.branch,
                }
            },
            None => DeletePlan {
                name: String::new(),
                worktree_path: String::new(),
                branch: String::new(),
            },
        }
    }

    /// Takes in how git removed the worktree of a deleted worker; `None` where git could not
    /// be run.
    pub fn worktree_removed(&mut self, id: WorkerId, output: Option<CommandOutput>) -> (r: Result<
        (),
        ManagerError,
    >)
        ensures
            match output {
                None => final(self).deep_view() == old(self).deep_view()
                    && (r matches Err(ManagerError::Outside(m)) && m@
                    == "failed to execute git worktree remove"@),
                Some(out) => r is Ok && final(self).deep_view() == (if out.success {
                    old(self).deep_view()
                } else {
                    old(self).deep_view().reporting(
                        WorkerEventView::Error {
                            id: Some(id),
                            message: "git worktree remove failed: stdout='"@ + text::trimmed(
                                out.stdout@,
                            ) + "' stderr='"@ + text::trimmed(out.stderr@) + "'"@,
                        },
                    )
                }),
            },
            output matches Some(out) ==> final(self).deep_view()
                == old(self).deep_view().told_failure(
                id,
                "git worktree remove"@,
                out.deep_view(),
            ),
    {
        proof {
            reveal_strlit("git worktree remove failed: stdout='");
            reveal_strlit("git worktree remove");
            reveal_strlit(" failed: stdout='");
            assert("git worktree remove"@ + " failed: stdout='"@
                =~= "git worktree remove failed: stdout='"@);
        }
        match output {
            None => Err(
                ManagerError::Outside("failed to execute git worktree remove".to_owned()),
            ),
            Some(out) => {
                if !out.success {
                    let message = cat5(
                        "git worktree remove failed: stdout='",
                        trim(out.stdout.as_str()).as_str(),
                        "' stderr='",
                        trim(out.stderr.as_str()).as_str(),
                        "'",
                    );
                    self.report(WorkerEvent::Error { id: Some(id), message });
                }
                Ok(())
            },
        }
    }

    /// Takes in how git deleted the branch of a deleted worker, and ends the deletion;
    /// `None` where git could not be run.
    pub fn branch_deleted(
        &mut self,
        id: WorkerId,
        plan: &DeletePlan,
        output: Option<CommandOutput>,
    ) -> (r: Result<(), ManagerError>)
        ensures
            match output {
                None => final(self).deep_view() == old(self).deep_view()
                    && (r matches Err(ManagerError::Outside(m)) && m@
                    == "failed to execute git branch -D"@),
                Some(out) => {
                    let told = if out.success {
                        old(self).deep_view()
                    } else {
                        old(self).deep_view().reporting(
                            WorkerEventView::Error {
                                id: Some(id),
                                message: "git branch -D "@ + plan.branch@ + " failed: stdout='"@
                                    + text::trimmed(out.stdout@) + "' stderr='"@ + text::trimmed(
                                    out.stderr@,
                                ) + "'"@,
                            },
                        )
                    };
                    &&& r is Ok
                    &&& final(self).deep_view() == told.reporting(
                        WorkerEventView::Deleted {
                            id,
                            message: "Removed worktree "@ + plan.worktree_path@,
                        },
                    ).wanting(
                        ManagerEffectView::DeleteWorkerFile { name: plan.name@ },
                    ).cancelling(id)
                },
            },
            output matches Some(out) ==> final(self).deep_view()
                == old(self).deep_view().deletion_ended(id, plan.deep_view(), out.deep_view()),
    {
        match output {
            None => Err(ManagerError::Outside("failed to execute git branch -D".to_owned())),
            Some(out) => {
                if !out.success {
                    let message = cat7(
                        "git branch -D ",
                        plan.branch.as_str(),
                        " failed: stdout='",
                        trim(out.stdout.as_str()).as_str(),
                        "' stderr='",
                        trim(out.stderr.as_str()).as_str(),
                        "'",
                    );
                    self.report(WorkerEvent::Error { id: Some(id), message });
                }
                let message = cat2("Removed worktree ", plan.worktree_path.as_str());
                self.report(WorkerEvent::Deleted { id, message });
                self.want(ManagerEffect::DeleteWorkerFile { name: plan.name.clone() });
                self.cancel_pending_permissions_for_worker(id);
                Ok(())
            },
        }
    }

    /// Begins the restart or the continuation of a worker: its requests are denied, and its
    /// agent has to be stopped.
    fn interrupt(&mut self, id: WorkerId) -> (r: Result<(), ManagerError>)
        ensures
            match old(self).deep_view().find(id) {
                Some(_) => r is Ok && final(self).deep_view() == old(self).deep_view().cancelling(
                    id,
                ).wanting(ManagerEffectView::StopAgent { id }),
                None => r == Err::<(), ManagerError>(ManagerError::NotFound(id))
                    && final(self).deep_view() == old(self).deep_view().cancelling(id),
            },
    {
        self.cancel_pending_permissions_for_worker(id);
        match self.find(id) {
            Some(_) => {
                self.want(ManagerEffect::StopAgent { id });
                Ok(())
            },
            None => Err(ManagerError::NotFound(id)),
        }
    }

    /// Begins the restart of a worker: its requests are denied, and its agent has to be
    /// stopped.
    pub fn handle_restart(&mut self, id: WorkerId) -> (r: Result<(), ManagerError>)
        ensures
            match old(self).deep_view().find(id) {
                Some(_) => r is Ok && final(self).deep_view() == old(self).deep_view().cancelling(
                    id,
                ).wanting(ManagerEffectView::StopAgent { id }),
                None => r == Err::<(), ManagerError>(ManagerError::NotFound(id))
                    && final(self).deep_view() == old(self).deep_view().cancelling(id),
            },
            final(self).deep_view() == old(self).deep_view().cancelling(id).stopping(id),
    {
        self.interrupt(id)
    }

    /// Begins the continuation of a worker: its requests are denied, and its agent has to be
    /// stopped.
    pub fn handle_continue(&mut self, id: WorkerId) -> (r: Result<(), ManagerError>)
        ensures
            match old(self).deep_view().find(id) {
                Some(_) => r is Ok && final(self).deep_view() == old(self).deep_view().cancelling(
                    id,
                ).wanting(ManagerEffectView::StopAgent { id }),
                None => r == Err::<(), ManagerError>(ManagerError::NotFound(id))
                    && final(self).deep_view() == old(self).deep_view().cancelling(id),
            },
            final(self).deep_view() == old(self).deep_view().cancelling(id).stopping(id),
    {
        self.interrupt(id)
    }

    /// Starts a stopped worker over.
    pub fn restart_stopped(&mut self, id: WorkerId)
        requires
            old(self).deep_view().wf(),
            old(self).deep_view().find(id) is Some,
        ensures
            final(self).deep_view() == old(self).deep_view().restarted(id),
            final(self).deep_view().wf(),
    {
        let ghost before = self.deep_view();
        let ghost ids = worker_ids(before.workers);
        proof {
            model::first_index_is_first(ids, id);
        }
        if let Some(i) = self.find(id) {
            let snapshot = restart_runtime(&mut self.workers[i]);
            assert(self.workers.deep_view() =~= before.restarted(id).workers);
            assert(worker_ids(self.workers.deep_view()) =~= ids);
            self.report(WorkerEvent::Updated(snapshot));
            self.want(ManagerEffect::StartAgent { id });
            self.persist_worker(id);
        }
    }

    /// Lets a stopped worker go on with one more step.
    pub fn continue_stopped(
        &mut self,
        id: WorkerId,
        prompt: String,
        permission_mode: Option<String>,
    )
        requires
            old(self).deep_view().wf(),
            old(self).deep_view().find(id) is Some,
        ensures
            final(self).deep_view() == old(self).deep_view().continued(
                id,
                prompt@,
                permission_mode.deep_view(),
            ),
            final(self).deep_view().wf(),
    {
        let ghost before = self.deep_view();
        let ghost ids = worker_ids(before.workers);
        let ghost after = before.continued(id, prompt@, permission_mode.deep_view());
        proof {
            model::first_index_is_first(ids, id);
        }
        if let Some(i) = self.find(id) {
            let snapshot = continue_runtime(&mut self.workers[i], prompt, permission_mode);
            assert(self.workers.deep_view() =~= after.workers);
            assert(worker_ids(self.workers.deep_view()) =~= ids);
            self.report(WorkerEvent::Updated(snapshot));
            self.report(WorkerEvent::Log { id, line: "追加指示を受信しました".to_owned() });
            self.want(ManagerEffect::StartAgent { id });
            self.persist_worker(id);
        }
    }

    /// Gives a worker another name; returns the old and the new name under which its file
    /// has to be renamed, nothing where the name stays.
    pub fn handle_rename(&mut self, id: WorkerId, new_name: String) -> (r: Result<
        Option<(String, String)>,
        ManagerError,
    >)
        requires
            old(self).deep_view().wf(),
        ensures
            final(self).deep_view().wf(),
            ({
                let m = old(self).deep_view();
                match r {
                    Err(ManagerError::InvalidName(e)) => name_validator::verdict(
                        new_name@,
                        Err(e),
                    ) && final(self).deep_view() == m,
                    Err(ManagerError::NotFound(missing)) => missing == id
                        && name_validator::valid_name(new_name@) && m.find(id) is None
                        && final(self).deep_view() == m,
                    Ok(None) => name_validator::valid_name(new_name@) && m.find(id) is Some
                        && m.workers[m.find(id)->0].snapshot.name == new_name@
                        && final(self).deep_view() == m,
                    Err(ManagerError::Rename(NameConflictError::AlreadyExists(taken, holder))) => {
                        &&& name_validator::valid_name(new_name@)
                        &&& m.find(id) is Some
                        &&& m.workers[m.find(id)->0].snapshot.name != new_name@
                        &&& !name_registry::may_take(m.names, new_name@, id)
                        &&& taken@ == new_name@
                        &&& holder == m.names[new_name@]
                        &&& final(self).deep_view() == m
                    },
                    Ok(Some((old_name, name))) => {
                        &&& name_validator::valid_name(new_name@)
                        &&& m.find(id) is Some
                        &&& m.workers[m.find(id)->0].snapshot.name == old_name@
                        &&& old_name@ != new_name@
                        &&& name@ == new_name@
                        &&& name_registry::may_take(m.names, new_name@, id)
                        &&& final(self).deep_view() == m.renamed(id, new_name@)
                    },
                    _ => false,
                }
            }),
    {
        let ghost before = self.deep_view();
        let ghost ids = worker_ids(before.workers);
        proof {
            model::first_index_is_first(ids, id);
        }
        if let Err(e) = self.name_validator.validate(new_name.as_str()) {
            return Err(ManagerError::InvalidName(e));
        }
        let i = match self.find(id) {
            Some(i) => i,
            None => {
                return Err(ManagerError::NotFound(id));
            },
        };
        let old_name = self.workers[i].snapshot.name.clone();
        if same(old_name.as_str(), new_name.as_str()) {
            return Ok(None);
        }
        if let Err(e) = self.name_registry.rename(old_name.as_str(), new_name.clone(), id) {
            return Err(ManagerError::Rename(e));
        }
        let snapshot = rename_runtime(&mut self.workers[i], new_name.clone());
        assert(self.workers.deep_view() =~= before.renamed(id, new_name@).workers);
        assert(worker_ids(self.workers.deep_view()) =~= ids);
        self.report(
            WorkerEvent::Renamed { id, old_name: old_name.clone(), new_name: new_name.clone() },
        );
        self.report(WorkerEvent::Updated(snapshot));
        Ok(Some((old_name, new_name)))
    }

    /// Takes in how the file of a renamed worker was renamed: has the worker saved, or takes
    /// the name back.
    pub fn rename_finished(
        &mut self,
        id: WorkerId,
        old_name: String,
        new_name: String,
        result: Result<(), String>,
    ) -> (r: Result<(), ManagerError>)
        ensures
            match result {
                Ok(()) => r is Ok && final(self).deep_view() == old(self).deep_view().saving(id),
                Err(e) => {
                    let names = old(self).deep_view().names;
                    &&& r matches Err(ManagerError::RenameFile(m)) && m@ == e@
                    &&& final(self).deep_view() == (ManagerView {
                        names: if name_registry::may_take(names, old_name@, id) {
                            name_registry::renamed(names, new_name@, old_name@, id)
                        } else {
                            names
                        },
                        ..old(self).deep_view()
                    })
                },
            },
            result is Err ==> final(self).deep_view() == old(self).deep_view().name_given_back(
                id,
                old_name@,
                new_name@,
            ),
    {
        match result {
            Ok(()) => {
                self.persist_worker(id);
                Ok(())
            },
            Err(e) => {
                let _undone = self.name_registry.rename(new_name.as_str(), old_name, id);
                Err(ManagerError::RenameFile(e))
            },
        }
    }

    /// Takes in a permission request: it waits for its answer, and the dashboard is told.
    pub fn handle_permission_prompt(&mut self, id: WorkerId, request: PermissionRequest)
        ensures
            ({
                let m = old(self).deep_view();
                let entry = PendingPermission { request_id: request.request_id, worker_id: id };
                let pending = match model::first_index(
                    request_ids(m.pending),
                    request.request_id,
                ) {
                    Some(i) => m.pending.update(i, entry),
                    None => m.pending.push(entry),
                };
                final(self).deep_view() == (ManagerView { pending, ..m }).reporting(
                    WorkerEventView::PermissionRequested { id, request: request.deep_view() },
                )
            }),
            final(self).deep_view() == old(self).deep_view().prompted(id, request.deep_view()),
    {
        let entry = PendingPermission { request_id: request.request_id, worker_id: id };
        match find_request(&self.pending_permissions, request.request_id) {
            Some(i) => {
                self.pending_permissions.set(i, entry);
            },
            None => {
                self.pending_permissions.push(entry);
            },
        }
        self.report(WorkerEvent::PermissionRequested { id, request });
    }

    /// Takes in the answer to a permission request: it is passed on and reported, unless no
    /// such request waits.
    pub fn handle_permission_response(
        &mut self,
        id: WorkerId,
        request_id: u64,
        decision: PermissionDecision,
    )
        ensures
            ({
                let m = old(self).deep_view();
                match model::first_index(request_ids(m.pending), request_id) {
                    Some(i) => final(self).deep_view() == (ManagerView {
                        pending: m.pending.remove(i),
                        ..m
                    }).wanting(
                        ManagerEffectView::Answer { request_id, decision: decision.deep_view() },
                    ).reporting(
                        WorkerEventView::PermissionResolved {
                            id,
                            request_id,
                            decision: decision.deep_view(),
                        },
                    ),
                    None => final(self).deep_view() == m.reporting(
                        WorkerEventView::Error {
                            id: Some(id),
                            message: "permission request "@ + text::decimal(request_id as nat)
                                + " not found"@,
                        },
                    ),
                }
            }),
            final(self).deep_view() == old(self).deep_view().responded(
                id,
                request_id,
                decision.deep_view(),
            ),
    {
        match find_request(&self.pending_permissions, request_id) {
            Some(i) => {
                let _request = self.pending_permissions.remove(i);
                self.want(ManagerEffect::Answer { request_id, decision: decision.clone() });
                self.report(WorkerEvent::PermissionResolved { id, request_id, decision });
            },
            None => {
                let message = cat3(
                    "permission request ",
                    u64_text(request_id).as_str(),
                    " not found",
                );
                self.report(WorkerEvent::Error { id: Some(id), message });
            },
        }
    }
}

/// Returns the place of a request.
fn find_request(pending: &Vec<PendingPermission>, request_id: u64) -> (r: Option<usize>)
    ensures
        match r {
            Some(i) => i < pending.len() && model::first_index(
                request_ids(pending@),
                request_id,
            ) == Some(i as int),
            None => model::first_index(request_ids(pending@), request_id) is None,
        },
{
    let ghost ids = request_ids(pending@);
    proof {
        model::first_index_is_first(ids, request_id);
    }
    for i in 0..pending.len()
        invariant
            ids == request_ids(pending@),
            forall|j: int| 0 <= j < i ==> ids[j] != request_id,
            match model::first_index(ids, request_id) {
                Some(k) => 0 <= k < ids.len() && ids[k] == request_id && forall|j: int|
                    0 <= j < k ==> ids[j] != request_id,
                None => forall|j: int| 0 <= j < ids.len() ==> ids[j] != request_id,
            },
    {
        assert(ids[i as int] == pending@[i as int].request_id);
        if pending[i].request_id == request_id {
            return Some(i);
        }
    }
    None
}

fn restart_runtime(rt: &mut WorkerRuntime) -> (r: WorkerSnapshot)
    ensures
        final(rt).deep_view() == (WorkerRuntimeView {
            snapshot: WorkerSnapshotView {
                status: WorkerStatus::Running,
                last_event: "Restart requested"@,
                current_step: None,
                ..old(rt).deep_view().snapshot
            },
            completed_steps: 0,
            ..old(rt).deep_view()
        }),
        r.deep_view() == final(rt).deep_view().snapshot,
{
    rt.completed_steps = 0;
    rt.snapshot.status = WorkerStatus::Running;
    rt.snapshot.last_event = "Restart requested".to_owned();
    rt.snapshot.current_step = None;
    rt.snapshot.clone()
}

fn continue_runtime(
    rt: &mut WorkerRuntime,
    prompt: String,
    permission_mode: Option<String>,
) -> (r: WorkerSnapshot)
    ensures
        ({
            let before = old(rt).deep_view();
            let steps = before.workflow.steps.push(
                prompt_step(
                    "Continue"@,
                    prompt@,
                    permission_mode.deep_view(),
                    "User follow-up instruction"@,
                ),
            );
            &&& final(rt).deep_view() == (WorkerRuntimeView {
                snapshot: WorkerSnapshotView {
                    status: WorkerStatus::Running,
                    last_event: "Continue with new instruction"@,
                    total_steps: steps.len() as usize,
                    ..before.snapshot
                },
                workflow: WorkflowView { steps, ..before.workflow },
                completed_steps: before.workflow.steps.len() as usize,
                ..before
            })
            &&& r.deep_view() == final(rt).deep_view().snapshot
        }),
{
    let ghost steps = rt.workflow.steps.deep_view();
    rt.completed_steps = rt.workflow.steps.len();
    let step = step_for_prompt(
        "Continue",
        prompt,
        permission_mode,
        "User follow-up instruction",
    );
    let ghost view = step.deep_view();
    rt.workflow.steps.push(step);
    assert(rt.workflow.steps.deep_view() =~= steps.push(view));
    rt.snapshot.status = WorkerStatus::Running;
    rt.snapshot.last_event = "Continue with new instruction".to_owned();
    rt.snapshot.total_steps = rt.workflow.steps.len();
    rt.snapshot.clone()
}

fn rename_runtime(rt: &mut WorkerRuntime, name: String) -> (r: WorkerSnapshot)
    ensures
        final(rt).deep_view() == (WorkerRuntimeView {
            snapshot: WorkerSnapshotView { name: name@, ..old(rt).deep_view().snapshot },
            ..old(rt).deep_view()
        }),
        r.deep_view() == final(rt).deep_view().snapshot,
{
    rt.snapshot.name = name;
    rt.snapshot.clone()
}

/// Denials for some requests.
pub open spec fn all_denials(pending: Seq<PendingPermission>) -> Seq<ManagerEffectView> {
    Seq::new(pending.len(), |i: int| denial(pending[i]))
}

/// Saves of some workers.
pub open spec fn all_saves(workers: Seq<WorkerRuntimeView>) -> Seq<ManagerEffectView> {
    Seq::new(
        workers.len(),
        |i: int| ManagerEffectView::SaveWorker(runtime::record_of(workers[i])),
    )
}

/// Stops of the agents of some workers.
pub open spec fn all_stops(workers: Seq<WorkerRuntimeView>) -> Seq<ManagerEffectView> {
    Seq::new(
        workers.len(),
        |i: int| ManagerEffectView::StopAgent { id: workers[i].snapshot.id },
    )
}

impl WorkerManager {
    /// Ends all work: has every worker saved, then every agent stopped, then every pending
    /// request denied.
    pub fn shutdown_all(&mut self)
        ensures
            final(self).deep_view() == (ManagerView {
                workers: seq![],
                pending: seq![],
                effects: old(self).deep_view().effects + all_saves(
                    old(self).deep_view().workers,
                ) + all_stops(old(self).deep_view().workers) + all_denials(
                    old(self).deep_view().pending,
                ),
                ..old(self).deep_view()
            }),
    {
        let ghost before = self.deep_view();
        let ghost saves = all_saves(before.workers);
        let ghost stops = all_stops(before.workers);
        let ghost denied = all_denials(before.pending);
        let count: usize = self.workers.len();
        assert(before.effects + saves.take(0) =~= before.effects);
        for i in 0..count
            invariant
                count == self.workers.len(),
                saves == all_saves(before.workers),
                self.deep_view() == (ManagerView {
                    effects: before.effects + saves.take(i as int),
                    ..before
                }),
        {
            let record = self.workers[i].record();
            self.want(ManagerEffect::SaveWorker(record));
            assert(saves.take(i + 1) =~= saves.take(i as int).push(saves[i as int]));
            assert(self.effects.deep_view() =~= before.effects + saves.take(i + 1));
        }
        assert(saves.take(count as int) =~= saves);
        assert(before.effects + saves + stops.take(0) =~= before.effects + saves);
        for i in 0..count
            invariant
                count == self.workers.len(),
                stops == all_stops(before.workers),
                self.deep_view() == (ManagerView {
                    effects: before.effects + saves + stops.take(i as int),
                    ..before
                }),
        {
            let id = self.workers[i].snapshot.id;
            self.want(ManagerEffect::StopAgent { id });
            assert(stops.take(i + 1) =~= stops.take(i as int).push(stops[i as int]));
            assert(self.effects.deep_view() =~= before.effects + saves + stops.take(i + 1));
        }
        assert(stops.take(count as int) =~= stops);
        let requests: usize = self.pending_permissions.len();
        assert(before.effects + saves + stops + denied.take(0) =~= before.effects + saves + stops);
        for i in 0..requests
            invariant
                requests == self.pending_permissions.len(),
                denied == all_denials(before.pending),
                self.deep_view() == (ManagerView {
                    effects: before.effects + saves + stops + denied.take(i as int),
                    ..before
                }),
        {
            let request_id = self.pending_permissions[i].request_id;
            self.want(ManagerEffect::Answer { request_id, decision: PermissionDecision::Deny });
            assert(denied.take(i + 1) =~= denied.take(i as int).push(denied[i as int]));
            assert(self.effects.deep_view() =~= before.effects + saves + stops + denied.take(
                i + 1,
            ));
        }
        assert(denied.take(requests as int) =~= denied);
        self.workers = Vec::new();
        self.pending_permissions = Vec::new();
        assert(self.workers.deep_view() =~= seq![]);
        assert(self.pending_permissions@ =~= seq![]);
    }

    /// Returns where the worktree of a saved worker is.
    pub fn worktree_of(&self, record: &WorkerRecord) -> (r: String)
        ensures
            r@ == paths::joined(self.repo_root@, record.snapshot.worktree@),
    {
        paths::join(self.repo_root.as_str(), record.snapshot.worktree.as_str())
    }

    /// Reads one worker back; `exists` tells whether its worktree is still there.
    fn restore_worker(&mut self, record: &WorkerRecord, exists: bool)
        requires
            old(self).deep_view().wf(),
            record.snapshot.id < usize::MAX,
        ensures
            final(self).deep_view() == old(self).deep_view().restored(
                record.deep_view(),
                exists,
            ),
            final(self).deep_view().wf(),
            final(self).next_id >= old(self).next_id,
            final(self).next_id > record.snapshot.id,
    {
        let ghost before = self.deep_view();
        let ghost view = record.deep_view();
        let worktree_path = self.worktree_of(record);
        let id = WorkerId(record.snapshot.id);
        if record.snapshot.id >= self.next_id {
            self.next_id = record.snapshot.id + 1;
            self.persist_manager_state();
        }
        let name = record.snapshot.name.clone();
        if let Err(e) = self.name_registry.register(name, id) {
            let message = cat4(
                "Warning: Failed to register worker name '",
                record.snapshot.name.as_str(),
                "': ",
                e.message().as_str(),
            );
            self.want(ManagerEffect::Warn { message });
        }
        let snapshot = WorkerSnapshot {
            id,
            name: record.snapshot.name.clone(),
            issue: record.snapshot.issue.duplicate(),
            agent: record.snapshot.agent.clone(),
            worktree: record.snapshot.worktree.clone(),
            branch: record.snapshot.branch.clone(),
            status: if exists {
                WorkerStatus::Idle
            } else {
                WorkerStatus::Archived
            },
            last_event: if exists {
                "Restored from saved state".to_owned()
            } else {
                "Archived (worktree removed)".to_owned()
            },
            workflow: record.workflow.name.clone(),
            total_steps: record.workflow.steps.len(),
            current_step: None,
            session_id: record.snapshot.session_id.duplicate(),
        };
        if exists {
            let rt = rebuild_runtime(
                snapshot.clone(),
                worktree_path,
                record,
                self.config.default_sandbox_mode,
            );
            proof {
                lemma_with_worker(before.workers, rt.deep_view(), self.next_id);
            }
            insert_worker(&mut self.workers, rt);
        }
        self.report(WorkerEvent::Created(snapshot));
        let ghost announced = self.deep_view();
        let ghost reports = log_reports(id, record.logs.deep_view());
        assert(announced.effects + reports.take(0) =~= announced.effects);
        for i in 0..record.logs.len()
            invariant
                reports == log_reports(id, record.logs.deep_view()),
                self.deep_view() == (ManagerView {
                    effects: announced.effects + reports.take(i as int),
                    ..announced
                }),
        {
            self.report(WorkerEvent::Log { id, line: record.logs[i].clone() });
            assert(reports.take(i + 1) =~= reports.take(i as int).push(reports[i as int]));
            assert(self.effects.deep_view() =~= announced.effects + reports.take(i + 1));
        }
        assert(reports.take(record.logs.len() as int) =~= reports);
    }

    /// Reads workers back; `exists` tells for each whether its worktree is still there.
    pub fn restore_workers(&mut self, records: &Vec<WorkerRecord>, exists: &Vec<bool>)
        requires
            old(self).deep_view().wf(),
            records.len() == exists.len(),
            forall|i: int|
                0 <= i < records.len() ==> (#[trigger] records@[i]).snapshot.id < usize::MAX,
        ensures
            final(self).deep_view() == old(self).deep_view().restored_all(
                records.deep_view(),
                exists@,
            ),
            final(self).deep_view().wf(),
            forall|i: int|
                0 <= i < records.len() ==> (#[trigger] records@[i]).snapshot.id
                    < final(self).next_id,
    {
        let ghost before = self.deep_view();
        let ghost all = records.deep_view();
        assert(all.take(0) =~= seq![]);
        for i in 0..records.len()
            invariant
                all == records.deep_view(),
                records.len() == exists.len(),
                self.deep_view().wf(),
                self.deep_view() == before.restored_all(all.take(i as int), exists@),
                forall|j: int|
                    0 <= j < records.len() ==> (#[trigger] records@[j]).snapshot.id < usize::MAX,
                forall|j: int|
                    0 <= j < i ==> (#[trigger] records@[j]).snapshot.id < self.next_id,
        {
            assert(all.take(i + 1).drop_last() =~= all.take(i as int));
            self.restore_worker(&records[i], exists[i]);
        }
        assert(all.take(records.len() as int) =~= all);
    }

    /// Takes out what is to be done outside, in order.
    pub fn take_effects(&mut self) -> (r: Vec<ManagerEffect>)
        ensures
            r.deep_view() == old(self).deep_view().effects,
            final(self).deep_view() == (ManagerView {
                effects: seq![],
                ..old(self).deep_view()
            }),
    {
        let mut out: Vec<ManagerEffect> = Vec::new();
        std::mem::swap(&mut out, &mut self.effects);
        assert(self.effects.deep_view() =~= seq![]);
        out
    }
}

/// Returns a worker that is read back.
fn rebuild_runtime(
    snapshot: WorkerSnapshot,
    worktree_path: String,
    record: &WorkerRecord,
    default_sandbox_mode: bool,
) -> (rt: WorkerRuntime)
    ensures
        rt.deep_view() == restored_runtime(
            snapshot.deep_view(),
            worktree_path@,
            record.deep_view(),
            default_sandbox_mode,
        ),
{
    let mut rt = WorkerRuntime::new(
        snapshot,
        worktree_path,
        record.snapshot.branch.clone(),
        record.workflow.clone(),
        default_sandbox_mode,
    );
    let ghost fresh = rt.deep_view();
    rt.completed_steps = record.completed_steps;
    let ghost logs = record.logs.deep_view();
    let ghost cap = runtime::MAX_LOGS as nat;
    assert(model::most_recent(logs.take(0), cap) =~= seq![]);
    for i in 0..record.logs.len()
        invariant
            logs == record.logs.deep_view(),
            cap == runtime::MAX_LOGS as nat,
            rt.deep_view() == (WorkerRuntimeView {
                completed_steps: record.completed_steps,
                logs: model::most_recent(logs.take(i as int), cap),
                ..fresh
            }),
    {
        proof {
            model::queue_keeps_most_recent(logs.take(i as int), cap, logs[i as int]);
        }
        assert(logs.take(i + 1) =~= logs.take(i as int).push(logs[i as int]));
        rt.add_log(record.logs[i].clone());
    }
    assert(logs.take(record.logs.len() as int) =~= logs);
    let ghost with_logs = rt.deep_view();
    let ghost histories = record.session_history.deep_view();
    assert(histories.take(0) =~= seq![]);
    for i in 0..record.session_history.len()
        invariant
            histories == record.session_history.deep_view(),
            rt.deep_view() == (WorkerRuntimeView {
                session_histories: histories.take(i as int),
                ..with_logs
            }),
    {
        assert(histories.take(i + 1) =~= histories.take(i as int).push(histories[i as int]));
        rt.add_session_history(record.session_history[i].clone());
    }
    assert(histories.take(record.session_history.len() as int) =~= histories);
    rt
}

/// Base branch of a new worktree: the current branch, else whatever is checked out.
pub fn base_ref(current: Option<String>) -> (r: String)
    ensures
        r@ == (match current {
            Some(branch) => branch@,
            None => "HEAD"@,
        }),
{
    match current {
        Some(branch) => branch,
        None => "HEAD".to_owned(),
    }
}

/// Takes in how git made the worktree of a new worker; `None` where git could not be run.
pub fn worktree_added(output: Option<CommandOutput>) -> (r: Result<(), ManagerError>)
    ensures
        match output {
            None => r matches Err(ManagerError::Outside(m)) && m@
                == "failed to execute git worktree add"@,
            Some(out) => if out.success {
                r is Ok
            } else {
                r matches Err(ManagerError::Outside(m)) && m@
                    == "git worktree add failed: status="@ + out.status@ + " stdout='"@
                    + text::trimmed(out.stdout@) + "' stderr='"@ + text::trimmed(out.stderr@)
                    + "'"@
            },
        },
{
    match output {
        None => Err(ManagerError::Outside("failed to execute git worktree add".to_owned())),
        Some(out) => {
            if out.success {
                Ok(())
            } else {
                Err(
                    ManagerError::Outside(
                        cat7(
                            "git worktree add failed: status=",
                            out.status.as_str(),
                            " stdout='",
                            trim(out.stdout.as_str()).as_str(),
                            "' stderr='",
                            trim(out.stderr.as_str()).as_str(),
                            "'",
                        ),
                    ),
                )
            }
        },
    }
}

/// After the requests of a worker have been denied none of its requests is pending, and
/// those of the others still are.
pub proof fn cancelled_requests_are_gone(pending: Seq<PendingPermission>, id: WorkerId)
    ensures
        forall|i: int|
            0 <= i < pending_of_others(pending, id).len() ==> (#[trigger] pending_of_others(
                pending,
                id,
            )[i]).worker_id != id,
        forall|p: PendingPermission|
            pending_of_others(pending, id).contains(p) <==> pending.contains(p) && p.worker_id
                != id,
    decreases pending.len(),
{
    if pending.len() > 0 {
        let front = pending.drop_last();
        let last = pending.last();
        cancelled_requests_are_gone(front, id);
        let kept = pending_of_others(pending, id);
        let before = pending_of_others(front, id);
        assert forall|p: PendingPermission|
            kept.contains(p) <==> pending.contains(p) && p.worker_id != id by {
            assert(pending.contains(p) <==> front.contains(p) || p == last) by {
                assert(pending =~= front.push(last));
                if front.contains(p) {
                    let k = choose|k: int| 0 <= k < front.len() && front[k] == p;
                    assert(pending[k] == p);
                }
                if p == last {
                    assert(pending[pending.len() - 1] == p);
                }
            }
            if last.worker_id != id {
                assert(kept =~= before.push(last));
                if before.contains(p) {
                    let k = choose|k: int| 0 <= k < before.len() && before[k] == p;
                    assert(kept[k] == p);
                }
                if p == last {
                    assert(kept[kept.len() - 1] == p);
                }
            }
        }
    }
}

/// Each pending request of a worker is answered with one denial when they are cancelled, and
/// no other request is answered.
pub proof fn cancelled_requests_are_denied(pending: Seq<PendingPermission>, id: WorkerId)
    ensures
        denials(pending, id).len() + pending_of_others(pending, id).len() == pending.len(),
        forall|i: int|
            0 <= i < pending.len() && (#[trigger] pending[i]).worker_id == id ==> denials(
                pending,
                id,
            ).contains(denial(pending[i])),
    decreases pending.len(),
{
    if pending.len() > 0 {
        let front = pending.drop_last();
        let last = pending.last();
        cancelled_requests_are_denied(front, id);
        assert forall|i: int|
            0 <= i < pending.len() && (#[trigger] pending[i]).worker_id == id implies denials(
            pending,
            id,
        ).contains(denial(pending[i])) by {
            let all = denials(pending, id);
            let before = denials(front, id);
            if i < front.len() {
                assert(front[i] == pending[i]);
                let k = choose|k: int| 0 <= k < before.len() && before[k] == denial(front[i]);
                assert(all[k] == denial(pending[i]));
            } else {
                assert(all[all.len() - 1] == denial(last));
            }
        }
    }
}

/// The number of a new worker is above those of all workers, and no later worker gets it:
/// the next number only grows.
pub proof fn numbers_are_fresh(
    m: ManagerView,
    name: Seq<char>,
    request: CreateWorkerRequestView,
    plan: WorktreePlanView,
)
    requires
        m.wf(),
        m.next_id < usize::MAX,
    ensures
        ({
            let id = WorkerId(m.next_id);
            let after = m.numbered((m.next_id + 1) as usize).created(id, name, request, plan);
            &&& m.find(id) is None
            &&& after.wf()
            &&& after.next_id == m.next_id + 1
            &&& after.workers.len() == m.workers.len() + 1
        }),
{
    let id = WorkerId(m.next_id);
    let numbered = m.numbered((m.next_id + 1) as usize);
    model::first_index_is_first(worker_ids(m.workers), id);
    if m.find(id) is Some {
        let i = m.find(id)->0;
        assert(m.workers[i].snapshot.id.0 < m.next_id);
    }
    let after = numbered.created(id, name, request, plan);
    let rt = after.workers.last();
    assert(rt.snapshot.id == id);
    lemma_with_worker(numbered.workers, rt, numbered.next_id);
}

/// A worker that is continued keeps the steps it has, counts them as completed, and goes on
/// with exactly one more.
pub proof fn continuation_adds_one_step(
    m: ManagerView,
    id: WorkerId,
    prompt: Seq<char>,
    mode: Option<Seq<char>>,
)
    requires
        m.wf(),
        m.find(id) is Some,
        m.workers[m.find(id)->0].workflow.steps.len() < usize::MAX,
    ensures
        ({
            let i = m.find(id)->0;
            let old_steps = m.workers[i].workflow.steps;
            let rt = m.continued(id, prompt, mode).workers[i];
            &&& rt.workflow.steps.take(old_steps.len() as int) == old_steps
            &&& rt.workflow.steps.len() == old_steps.len() + 1
            &&& rt.completed_steps == old_steps.len()
            &&& rt.snapshot.total_steps == rt.workflow.steps.len()
            &&& rt.logs == m.workers[i].logs
            &&& rt.session_histories == m.workers[i].session_histories
        }),
{
    let i = m.find(id)->0;
    model::first_index_is_first(worker_ids(m.workers), id);
    let old_steps = m.workers[i].workflow.steps;
    let rt = m.continued(id, prompt, mode).workers[i];
    assert(rt.workflow.steps.take(old_steps.len() as int) =~= old_steps);
}

/// A worker that is saved and read back while its worktree is there is the worker that was
/// saved, but for its status, its last event and the step it was in.
pub proof fn saved_worker_is_read_back(rt: WorkerRuntimeView, worktree_path: Seq<char>)
    requires
        rt.logs.len() <= runtime::MAX_LOGS,
        rt.snapshot.workflow == rt.workflow.name,
        rt.snapshot.total_steps == rt.workflow.steps.len(),
        rt.branch == rt.snapshot.branch,
        rt.worktree_path == worktree_path,
        rt.events.len() == 0,
    ensures
        ({
            let record = runtime::record_of(rt);
            let snapshot = restored_snapshot(record, true);
            restored_runtime(snapshot, worktree_path, record, rt.default_sandbox_mode) == (
            WorkerRuntimeView {
                snapshot: WorkerSnapshotView {
                    status: WorkerStatus::Idle,
                    last_event: "Restored from saved state"@,
                    current_step: None,
                    ..rt.snapshot
                },
                ..rt
            })
        }),
{
    assert(rt.events =~= seq![]);
}

/// A worker whose worktree is gone is shown as archived and not looked after any more.
pub proof fn missing_worktree_archives(m: ManagerView, record: WorkerRecordView)
    ensures
        restored_snapshot(record, false).status == WorkerStatus::Archived,
        m.restored(record, false).workers == m.workers,
{
}

} // verus!
