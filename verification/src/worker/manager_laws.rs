//! What holds of every worker that is created, restarted, continued, renamed, restored or stopped.
use crate::config::{ClaudeStepView, ConfigView};
use crate::config;
use crate::model;
use crate::state::{ManagerStateView, WorkerRecordView};
use crate::text;
use crate::worker::manager::{
    self, CommandOutputView, DeletePlanView, ManagerEffectView, ManagerView, PendingPermission,
    WorktreePlanView,
};
use crate::worker::runtime::{self, WorkerRuntimeView};
use crate::worker::{
    CreateWorkerRequestView, PermissionDecisionView, PermissionRequestView, WorkerEventView,
    WorkerId, WorkerSnapshotView, WorkerStatus,
};
use vstd::prelude::*;

verus! {

/// Whether a worker is at a place.
pub open spec fn holds(m: ManagerView, i: int, id: WorkerId) -> bool {
    0 <= i < m.workers.len() && m.workers[i].snapshot.id == id
}

/// Whether all workers but one are the same in two states.
pub open spec fn others_stay(before: ManagerView, after: ManagerView, id: WorkerId) -> bool {
    forall|i: int|
        0 <= i < before.workers.len() && (#[trigger] before.workers[i]).snapshot.id != id ==> i
            < after.workers.len() && after.workers[i] == before.workers[i]
}

/// Whether something is wanted between two states.
pub open spec fn wanted(before: ManagerView, after: ManagerView, effect: ManagerEffectView) -> bool {
    exists|i: int|
        before.effects.len() <= i < after.effects.len() && #[trigger] after.effects[i] == effect
}

/// A worker is found where it is.
proof fn lemma_find(m: ManagerView, i: int, id: WorkerId)
    requires
        m.wf(),
        holds(m, i, id),
    ensures
        m.find(id) == Some(i),
{
    let ids = manager::worker_ids(m.workers);
    model::first_index_is_first(ids, id);
    assert(ids[i] == id);
    let k = m.find(id)->0;
    assert(ids[k] == id);
    assert(k == i);
}

/// Whether a configuration has a workflow of a name.
pub open spec fn has_workflow(config: ConfigView, name: Seq<char>) -> bool {
    exists|i: int| 0 <= i < config.workflows.len() && (#[trigger] config.workflows[i]).name == name
}

proof fn lemma_named_workflow(config: ConfigView, name: Seq<char>)
    ensures
        match model::first_index(config::workflow_names(config.workflows), name) {
            Some(i) => 0 <= i < config.workflows.len() && config.workflows[i].name == name,
            None => !has_workflow(config, name),
        },
{
    let names = config::workflow_names(config.workflows);
    model::first_index_is_first(names, name);
    if model::first_index(names, name) is None && has_workflow(config, name) {
        let i = choose|i: int|
            0 <= i < config.workflows.len() && (#[trigger] config.workflows[i]).name == name;
        assert(names[i] == name);
    }
}

/// The place of a worker that has been created.
proof fn lemma_created_place(
    m: ManagerView,
    id: WorkerId,
    name: Seq<char>,
    request: CreateWorkerRequestView,
    plan: WorktreePlanView,
) -> (i: int)
    ensures
        holds(m.created(id, name, request, plan), i, id),
        m.created(id, name, request, plan).workers[i] == runtime::fresh_runtime(
            manager::new_snapshot(
                id,
                name,
                request,
                plan,
                manager::workflow_for(m.config, m.product, request, id),
                m.product,
            ),
            plan.path,
            plan.branch,
            manager::workflow_for(m.config, m.product, request, id),
            m.config.default_sandbox_mode,
        ),
        others_stay(m, m.created(id, name, request, plan), id),
{
    let after = m.created(id, name, request, plan);
    let ids = manager::worker_ids(m.workers);
    model::first_index_is_first(ids, id);
    match model::first_index(ids, id) {
        Some(i) => {
            assert(ids[i] == m.workers[i].snapshot.id);
            i
        },
        None => m.workers.len() as int,
    }
}

/// A new worker that is to run a workflow of the configuration by its name runs a workflow of
/// exactly that name, from its first step on; nothing is said of a workflow that was not found.
pub proof fn named_workflows_are_run(
    m: ManagerView,
    id: WorkerId,
    name: Seq<char>,
    request: CreateWorkerRequestView,
    plan: WorktreePlanView,
    workflow: Seq<char>,
)
    requires
        request.free_prompt is None,
        request.workflow == Some(workflow),
        has_workflow(m.config, workflow),
    ensures
        ({
            let after = m.created(id, name, request, plan);
            &&& exists|i: int, k: int|
                #[trigger] holds(after, i, id) && 0 <= k < m.config.workflows.len()
                    && after.workers[i].workflow == #[trigger] m.config.workflows[k]
                    && after.workers[i].workflow.name == workflow
                    && after.workers[i].snapshot.workflow == workflow
                    && after.workers[i].snapshot.total_steps
                    == m.config.workflows[k].steps.len() as usize
                    && after.workers[i].completed_steps == 0
            &&& forall|i: int|
                m.effects.len() <= i < after.effects.len() ==> !((
                #[trigger] after.effects[i]) matches ManagerEffectView::Report(
                    WorkerEventView::Log { .. },
                ))
        }),
{
    let after = m.created(id, name, request, plan);
    lemma_named_workflow(m.config, workflow);
    let i = lemma_created_place(m, id, name, request, plan);
    let k = model::first_index(config::workflow_names(m.config.workflows), workflow)->0;
    assert(holds(after, i, id) && after.workers[i].workflow == m.config.workflows[k]);
}

/// Without a name, or where the name is none of the configuration, a new worker runs the default
/// workflow: the one that the configuration names, or the first. That a name was not found is
/// told.
pub proof fn default_workflows_are_run(
    m: ManagerView,
    id: WorkerId,
    name: Seq<char>,
    request: CreateWorkerRequestView,
    plan: WorktreePlanView,
    named: Seq<char>,
)
    requires
        m.wf(),
        request.free_prompt is None,
        request.workflow matches Some(w) ==> !has_workflow(m.config, w),
    ensures
        ({
            let after = m.created(id, name, request, plan);
            exists|i: int| #[trigger]
                holds(after, i, id) && {
                    let workflow = after.workers[i].workflow;
                    &&& m.config.default_workflow == Some(named) && has_workflow(m.config, named)
                        ==> workflow.name == named && m.config.workflows.contains(workflow)
                    &&& m.config.default_workflow is None ==> workflow == m.config.workflows[0]
                    &&& m.config.default_workflow == Some(named) && !has_workflow(m.config, named)
                        ==> workflow == m.config.workflows[0]
                    &&& request.workflow matches Some(w) ==> wanted(
                        m,
                        after,
                        ManagerEffectView::Report(
                            WorkerEventView::Log {
                                id,
                                line: "Requested workflow '"@ + w + "' not found. Using '"@
                                    + workflow.name + "' instead"@,
                            },
                        ),
                    )
                }
        }),
{
    let after = m.created(id, name, request, plan);
    let i = lemma_created_place(m, id, name, request, plan);
    lemma_named_workflow(m.config, named);
    if let Some(w) = request.workflow {
        lemma_named_workflow(m.config, w);
    }
    if let Some(d) = m.config.default_workflow {
        lemma_named_workflow(m.config, d);
    }
    let k = m.config.default_index();
    let workflow = after.workers[i].workflow;
    assert(workflow == m.config.workflows[k]);
    assert(m.config.workflows.contains(m.config.workflows[k]));
    if let Some(w) = request.workflow {
        assert(workflow.name != w) by {
            if workflow.name == w {
                assert(m.config.workflows[k].name == w);
            }
        }
        assert(after.effects[m.effects.len() as int + 1] == ManagerEffectView::Report(
            WorkerEventView::Log {
                id,
                line: "Requested workflow '"@ + w + "' not found. Using '"@ + workflow.name
                    + "' instead"@,
            },
        ));
    }
    assert(holds(after, i, id));
}

/// A prompt of the user becomes a workflow of one step, which runs the agent with the prompt and
/// the permission mode that was asked for, with all tools.
pub proof fn prompts_become_one_step(
    m: ManagerView,
    id: WorkerId,
    name: Seq<char>,
    request: CreateWorkerRequestView,
    plan: WorktreePlanView,
    prompt: Seq<char>,
)
    requires
        request.free_prompt == Some(prompt),
    ensures
        ({
            let after = m.created(id, name, request, plan);
            exists|i: int| #[trigger]
                holds(after, i, id) && {
                    let steps = after.workers[i].workflow.steps;
                    &&& steps.len() == 1
                    &&& steps[0].command is None
                    &&& steps[0].claude == Some(
                        ClaudeStepView {
                            prompt,
                            model: None,
                            allowed_tools: None,
                            permission_mode: request.permission_mode,
                            extra_args: None,
                            sandbox_mode: None,
                        },
                    )
                    &&& after.workers[i].snapshot.total_steps == 1
                    &&& after.workers[i].completed_steps == 0
                }
        }),
{
    let i = lemma_created_place(m, id, name, request, plan);
    assert(holds(m.created(id, name, request, plan), i, id));
}

/// A new worker has the number, the name, the issue and the worktree that it was given, and runs;
/// it is announced as it is, its agent is started and it is saved. No other worker changes.
pub proof fn new_workers_are_what_was_asked_for(
    m: ManagerView,
    id: WorkerId,
    name: Seq<char>,
    request: CreateWorkerRequestView,
    plan: WorktreePlanView,
    agent: Seq<char>,
)
    ensures
        ({
            let after = m.created(id, name, request, plan);
            &&& others_stay(m, after, id)
            &&& m.effects.is_prefix_of(after.effects)
            &&& after.names == m.names
            &&& after.pending == m.pending
            &&& after.next_id == m.next_id
            &&& wanted(m, after, ManagerEffectView::StartAgent { id })
            &&& exists|i: int| #[trigger]
                holds(after, i, id) && {
                    let rt = after.workers[i];
                    &&& rt.snapshot.name == name
                    &&& rt.snapshot.issue == request.issue
                    &&& rt.snapshot.branch == plan.branch
                    &&& rt.snapshot.worktree == plan.rel
                    &&& rt.snapshot.status == WorkerStatus::Running
                    &&& rt.snapshot.session_id is None
                    &&& rt.snapshot.current_step is None
                    &&& request.agent == Some(agent) ==> rt.snapshot.agent == agent
                    &&& rt.worktree_path == plan.path
                    &&& rt.branch == plan.branch
                    &&& rt.default_sandbox_mode == m.config.default_sandbox_mode
                    &&& rt.logs.len() == 0
                    &&& rt.session_histories.len() == 0
                    &&& after.effects[m.effects.len() as int] == ManagerEffectView::Report(
                        WorkerEventView::Created(rt.snapshot),
                    )
                    &&& after.effects.last() == ManagerEffectView::SaveWorker(
                        runtime::record_of(rt),
                    )
                }
        }),
{
    let after = m.created(id, name, request, plan);
    let i = lemma_created_place(m, id, name, request, plan);
    assert(holds(after, i, id));
    assert(after.effects.take(m.effects.len() as int) =~= m.effects);
    assert(after.effects[after.effects.len() - 2] == (ManagerEffectView::StartAgent { id }));
}

/// A worker that is restarted runs its workflow from the first step on; its workflow, its log, its
/// session and its histories stay, and so do all other workers. The dashboard is told, the agent
/// started and the worker saved.
pub proof fn restarts_begin_anew(m: ManagerView, id: WorkerId, i: int)
    requires
        m.wf(),
        holds(m, i, id),
    ensures
        ({
            let after = m.restarted(id);
            let old_rt = m.workers[i];
            let rt = after.workers[i];
            &&& after.workers.len() == m.workers.len()
            &&& others_stay(m, after, id)
            &&& rt.completed_steps == 0
            &&& rt.snapshot.status == WorkerStatus::Running
            &&& rt.snapshot.current_step is None
            &&& rt.workflow == old_rt.workflow
            &&& rt.logs == old_rt.logs
            &&& rt.session_histories == old_rt.session_histories
            &&& rt.snapshot.session_id == old_rt.snapshot.session_id
            &&& rt.snapshot.name == old_rt.snapshot.name
            &&& rt.snapshot.total_steps == old_rt.snapshot.total_steps
            &&& rt.worktree_path == old_rt.worktree_path
            &&& wanted(m, after, ManagerEffectView::Report(WorkerEventView::Updated(rt.snapshot)))
            &&& wanted(m, after, ManagerEffectView::StartAgent { id })
            &&& wanted(m, after, ManagerEffectView::SaveWorker(runtime::record_of(rt)))
        }),
{
    lemma_find(m, i, id);
    let after = m.restarted(id);
    lemma_find_after(m, after, i, id);
    let n = m.effects.len() as int;
    assert(after.effects[n] == ManagerEffectView::Report(
        WorkerEventView::Updated(after.workers[i].snapshot),
    ));
    assert(after.effects[n + 1] == (ManagerEffectView::StartAgent { id }));
    assert(after.effects[n + 2] == ManagerEffectView::SaveWorker(
        runtime::record_of(after.workers[i]),
    ));
}

/// A worker that keeps its place keeps it under the same number.
proof fn lemma_find_after(before: ManagerView, after: ManagerView, i: int, id: WorkerId)
    requires
        before.wf(),
        holds(before, i, id),
        after.workers.len() == before.workers.len(),
        after.workers[i].snapshot.id == id,
        forall|j: int|
            0 <= j < before.workers.len() && j != i ==> #[trigger] after.workers[j]
                == before.workers[j],
    ensures
        others_stay(before, after, id),
        model::first_index(manager::worker_ids(after.workers), id) == Some(i),
{
    let ids = manager::worker_ids(before.workers);
    let now = manager::worker_ids(after.workers);
    assert(now =~= ids) by {
        assert forall|j: int| 0 <= j < ids.len() implies now[j] == ids[j] by {
            if j != i {
                assert(after.workers[j] == before.workers[j]);
            }
        }
    }
    lemma_find(before, i, id);
}

/// A worker that is continued runs one more step with the prompt and the permission mode of the
/// user, in the session that it has; it keeps its log and its histories, and all other workers
/// stay. The dashboard is told, the agent started and the worker saved.
pub proof fn continuations_run_the_prompt(
    m: ManagerView,
    id: WorkerId,
    i: int,
    prompt: Seq<char>,
    mode: Option<Seq<char>>,
)
    requires
        m.wf(),
        holds(m, i, id),
        m.workers[i].workflow.steps.len() < usize::MAX,
    ensures
        ({
            let after = m.continued(id, prompt, mode);
            let old_rt = m.workers[i];
            let rt = after.workers[i];
            let n = old_rt.workflow.steps.len() as int;
            &&& after.workers.len() == m.workers.len()
            &&& others_stay(m, after, id)
            &&& rt.workflow.steps.len() == n + 1
            &&& rt.workflow.steps.take(n) == old_rt.workflow.steps
            &&& rt.workflow.steps[n].command is None
            &&& rt.workflow.steps[n].claude == Some(
                ClaudeStepView {
                    prompt,
                    model: None,
                    allowed_tools: None,
                    permission_mode: mode,
                    extra_args: None,
                    sandbox_mode: None,
                },
            )
            &&& rt.completed_steps == n
            &&& rt.snapshot.total_steps == n + 1
            &&& rt.snapshot.status == WorkerStatus::Running
            &&& rt.snapshot.session_id == old_rt.snapshot.session_id
            &&& rt.snapshot.name == old_rt.snapshot.name
            &&& rt.logs == old_rt.logs
            &&& rt.session_histories == old_rt.session_histories
            &&& wanted(m, after, ManagerEffectView::Report(WorkerEventView::Updated(rt.snapshot)))
            &&& wanted(m, after, ManagerEffectView::StartAgent { id })
            &&& wanted(m, after, ManagerEffectView::SaveWorker(runtime::record_of(rt)))
        }),
{
    lemma_find(m, i, id);
    let after = m.continued(id, prompt, mode);
    lemma_find_after(m, after, i, id);
    let n = m.effects.len() as int;
    let rt = after.workers[i];
    assert(rt.workflow.steps.take(m.workers[i].workflow.steps.len() as int)
        =~= m.workers[i].workflow.steps);
    assert(after.effects[n] == ManagerEffectView::Report(WorkerEventView::Updated(rt.snapshot)));
    assert(after.effects[n + 2] == (ManagerEffectView::StartAgent { id }));
    assert(after.effects[n + 3] == ManagerEffectView::SaveWorker(runtime::record_of(rt)));
}

/// A worker that is renamed has the new name and is else the same; the new name is taken by it and
/// its old name is free, what other workers are called stays. The dashboard is told of both names.
pub proof fn renames_change_one_name(
    m: ManagerView,
    id: WorkerId,
    i: int,
    new_name: Seq<char>,
    other: Seq<char>,
)
    requires
        m.wf(),
        holds(m, i, id),
        m.workers[i].snapshot.name != new_name,
    ensures
        ({
            let after = m.renamed(id, new_name);
            let old_name = m.workers[i].snapshot.name;
            &&& after.workers.len() == m.workers.len()
            &&& others_stay(m, after, id)
            &&& after.workers[i] == (WorkerRuntimeView {
                snapshot: WorkerSnapshotView { name: new_name, ..m.workers[i].snapshot },
                ..m.workers[i]
            })
            &&& after.names.contains_key(new_name) && after.names[new_name] == id
            &&& !after.names.contains_key(old_name)
            &&& other != old_name && other != new_name ==> after.names.contains_key(other)
                == m.names.contains_key(other) && (m.names.contains_key(other)
                ==> after.names[other] == m.names[other])
            &&& wanted(
                m,
                after,
                ManagerEffectView::Report(WorkerEventView::Renamed { id, old_name, new_name }),
            )
            &&& wanted(
                m,
                after,
                ManagerEffectView::Report(WorkerEventView::Updated(after.workers[i].snapshot)),
            )
            &&& after.pending == m.pending
        }),
{
    lemma_find(m, i, id);
    let after = m.renamed(id, new_name);
    lemma_find_after(m, after, i, id);
    let n = m.effects.len() as int;
    assert(after.effects[n] == ManagerEffectView::Report(
        WorkerEventView::Renamed { id, old_name: m.workers[i].snapshot.name, new_name },
    ));
    assert(after.effects[n + 1] == ManagerEffectView::Report(
        WorkerEventView::Updated(after.workers[i].snapshot),
    ));
}

/// A worker that is read back while its worktree is there goes on where it was when it was saved:
/// with its workflow, as many steps completed, its log as far as it is kept, its histories and its
/// session, idle. One whose worktree is gone is only shown, as archived.
pub proof fn saved_workers_go_on(m: ManagerView, record: WorkerRecordView)
    requires
        m.wf(),
    ensures
        ({
            let id = WorkerId(record.snapshot.id);
            let after = m.restored(record, true);
            &&& others_stay(m, after, id)
            &&& exists|i: int| #[trigger]
                holds(after, i, id) && {
                    let rt = after.workers[i];
                    &&& rt.snapshot.name == record.snapshot.name
                    &&& rt.snapshot.issue == record.snapshot.issue
                    &&& rt.snapshot.agent == record.snapshot.agent
                    &&& rt.snapshot.branch == record.snapshot.branch
                    &&& rt.snapshot.worktree == record.snapshot.worktree
                    &&& rt.snapshot.session_id == record.snapshot.session_id
                    &&& rt.snapshot.status == WorkerStatus::Idle
                    &&& rt.snapshot.workflow == record.workflow.name
                    &&& rt.snapshot.total_steps == record.workflow.steps.len() as usize
                    &&& rt.workflow == record.workflow
                    &&& rt.completed_steps == record.completed_steps
                    &&& rt.session_histories == record.session_history
                    &&& record.logs.len() <= runtime::MAX_LOGS ==> rt.logs == record.logs
                    &&& wanted(
                        m,
                        after,
                        ManagerEffectView::Report(WorkerEventView::Created(rt.snapshot)),
                    )
                }
        }),
        ({
            let after = m.restored(record, false);
            &&& after.workers == m.workers
            &&& exists|snapshot: WorkerSnapshotView|
                snapshot.id == WorkerId(record.snapshot.id) && snapshot.name
                    == record.snapshot.name && snapshot.status == WorkerStatus::Archived
                    && #[trigger] wanted(
                    m,
                    after,
                    ManagerEffectView::Report(WorkerEventView::Created(snapshot)),
                )
        }),
{
    let id = WorkerId(record.snapshot.id);
    let ids = manager::worker_ids(m.workers);
    model::first_index_is_first(ids, id);
    let after = m.restored(record, true);
    let i = match model::first_index(ids, id) {
        Some(i) => {
            assert(ids[i] == m.workers[i].snapshot.id);
            i
        },
        None => m.workers.len() as int,
    };
    assert(holds(after, i, id));
    let k = after.effects.len() - record.logs.len() - 1;
    assert(after.effects[k] == ManagerEffectView::Report(
        WorkerEventView::Created(after.workers[i].snapshot),
    ));
    let gone = m.restored(record, false);
    let snapshot = manager::restored_snapshot(record, false);
    let j = gone.effects.len() - record.logs.len() - 1;
    assert(gone.effects[j] == ManagerEffectView::Report(WorkerEventView::Created(snapshot)));
    assert(wanted(m, gone, ManagerEffectView::Report(WorkerEventView::Created(snapshot))));
}

/// Reading a worker back takes its name, unless another one has it; the next number is above its
/// own; and its log is told again, line by line and in order.
pub proof fn reading_back_takes_name_and_number(
    m: ManagerView,
    record: WorkerRecordView,
    exists_still: bool,
    other: Seq<char>,
)
    requires
        record.snapshot.id < usize::MAX,
    ensures
        ({
            let after = m.restored(record, exists_still);
            let name = record.snapshot.name;
            let n = record.logs.len();
            &&& after.next_id > record.snapshot.id
            &&& after.next_id >= m.next_id
            &&& record.snapshot.id < m.next_id ==> after.next_id == m.next_id
            &&& !m.names.contains_key(name) ==> after.names == m.names.insert(
                name,
                WorkerId(record.snapshot.id),
            )
            &&& m.names.contains_key(name) ==> after.names == m.names
            &&& after.pending == m.pending
            &&& after.effects.len() >= m.effects.len() + n
            &&& forall|i: int|
                0 <= i < n ==> #[trigger] after.effects[after.effects.len() - n + i]
                    == ManagerEffectView::Report(
                    WorkerEventView::Log {
                        id: WorkerId(record.snapshot.id),
                        line: record.logs[i],
                    },
                )
            &&& record.snapshot.id >= m.next_id ==> wanted(
                m,
                after,
                ManagerEffectView::SaveManager(ManagerStateView { next_id: after.next_id }),
            )
        }),
{
    let after = m.restored(record, exists_still);
    if record.snapshot.id >= m.next_id {
        assert(after.effects[m.effects.len() as int] == ManagerEffectView::SaveManager(
            ManagerStateView { next_id: after.next_id },
        ));
    }
}

/// What is saved of a worker is what it is: who it is, its workflow and how far it has come, its
/// log, its session and its histories.
pub proof fn saves_hold_the_worker(rt: WorkerRuntimeView)
    ensures
        ({
            let record = runtime::record_of(rt);
            &&& record.snapshot.id == rt.snapshot.id.0
            &&& record.snapshot.name == rt.snapshot.name
            &&& record.snapshot.issue == rt.snapshot.issue
            &&& record.snapshot.agent == rt.snapshot.agent
            &&& record.snapshot.worktree == rt.snapshot.worktree
            &&& record.snapshot.branch == rt.snapshot.branch
            &&& record.snapshot.last_event == rt.snapshot.last_event
            &&& record.snapshot.workflow == rt.snapshot.workflow
            &&& record.snapshot.total_steps == rt.snapshot.total_steps
            &&& record.snapshot.current_step == rt.snapshot.current_step
            &&& record.snapshot.session_id == rt.snapshot.session_id
            &&& record.logs == rt.logs
            &&& record.workflow == rt.workflow
            &&& record.completed_steps == rt.completed_steps
            &&& record.session_history == rt.session_histories
            &&& rt.snapshot.status == WorkerStatus::Running ==> record.snapshot.status
                == "Running"@
            &&& rt.snapshot.status == WorkerStatus::Idle ==> record.snapshot.status == "Idle"@
            &&& rt.snapshot.status == WorkerStatus::Paused ==> record.snapshot.status == "Paused"@
            &&& rt.snapshot.status == WorkerStatus::Failed ==> record.snapshot.status == "Failed"@
        }),
{
}

/// Saving a worker wants it saved as it stands, where it is there, and nothing else.
pub proof fn workers_are_saved_as_they_stand(m: ManagerView, id: WorkerId, i: int)
    requires
        m.wf(),
    ensures
        holds(m, i, id) ==> m.saving(id) == (ManagerView {
            effects: m.effects.push(
                ManagerEffectView::SaveWorker(runtime::record_of(m.workers[i])),
            ),
            ..m
        }),
        (forall|j: int| !holds(m, j, id)) ==> m.saving(id) == m,
{
    if holds(m, i, id) {
        lemma_find(m, i, id);
    }
    if forall|j: int| !holds(m, j, id) {
        let ids = manager::worker_ids(m.workers);
        model::first_index_is_first(ids, id);
        if m.find(id) is Some {
            let k = m.find(id)->0;
            assert(ids[k] == id);
            assert(holds(m, k, id));
        }
    }
}

/// The answer that denies a request.
pub open spec fn is_denial(effect: ManagerEffectView, request_id: u64) -> bool {
    effect == (ManagerEffectView::Answer { request_id, decision: PermissionDecisionView::Deny })
}

/// Whether something denies a request of a worker that waits.
pub open spec fn denies_one_of(
    effect: ManagerEffectView,
    pending: Seq<PendingPermission>,
    id: WorkerId,
) -> bool {
    exists|j: int|
        0 <= j < pending.len() && (#[trigger] pending[j]).worker_id == id && is_denial(
            effect,
            pending[j].request_id,
        )
}

/// When the requests of a worker are cancelled each of them is answered by a denial, no request of
/// another worker is answered, and what waits after that are those of the other workers.
pub proof fn cancelling_denies_what_waits(m: ManagerView, id: WorkerId, i: int)
    ensures
        ({
            let after = m.cancelling(id);
            &&& after.workers == m.workers
            &&& m.effects.is_prefix_of(after.effects)
            &&& 0 <= i < m.pending.len() && m.pending[i].worker_id == id ==> exists|k: int|
                m.effects.len() <= k < after.effects.len() && #[trigger] is_denial(
                    after.effects[k],
                    m.pending[i].request_id,
                )
            &&& 0 <= i < m.pending.len() && m.pending[i].worker_id != id ==> after.pending.contains(
                m.pending[i],
            )
            &&& forall|p: PendingPermission|
                #[trigger] after.pending.contains(p) ==> p.worker_id != id && m.pending.contains(p)
            &&& forall|k: int|
                m.effects.len() <= k < after.effects.len() ==> denies_one_of(
                    #[trigger] after.effects[k],
                    m.pending,
                    id,
                )
        }),
{
    let after = m.cancelling(id);
    manager::cancelled_requests_are_gone(m.pending, id);
    manager::cancelled_requests_are_denied(m.pending, id);
    let denied = manager::denials(m.pending, id);
    assert(after.effects =~= m.effects + denied);
    assert(after.effects.take(m.effects.len() as int) =~= m.effects);
    if 0 <= i < m.pending.len() && m.pending[i].worker_id == id {
        let d = manager::denial(m.pending[i]);
        let k = choose|k: int| 0 <= k < denied.len() && denied[k] == d;
        assert(is_denial(after.effects[m.effects.len() + k], m.pending[i].request_id));
    }
    if 0 <= i < m.pending.len() && m.pending[i].worker_id != id {
        assert(m.pending.contains(m.pending[i]));
    }
    assert forall|k: int| m.effects.len() <= k < after.effects.len() implies denies_one_of(
        #[trigger] after.effects[k],
        m.pending,
        id,
    ) by {
        lemma_denials_are_of(m.pending, id, k - m.effects.len());
        assert(after.effects[k] == denied[k - m.effects.len()]);
    }
}

proof fn lemma_denials_are_of(pending: Seq<PendingPermission>, id: WorkerId, k: int)
    requires
        0 <= k < manager::denials(pending, id).len(),
    ensures
        denies_one_of(manager::denials(pending, id)[k], pending, id),
    decreases pending.len(),
{
    if pending.len() > 0 {
        let front = pending.drop_last();
        let before = manager::denials(front, id);
        if k < before.len() {
            lemma_denials_are_of(front, id, k);
            let j = choose|j: int|
                0 <= j < front.len() && (#[trigger] front[j]).worker_id == id && is_denial(
                    before[k],
                    front[j].request_id,
                );
            assert(pending[j] == front[j]);
        } else {
            let last = pending.len() - 1;
            assert(pending[last].worker_id == id);
            assert(is_denial(manager::denials(pending, id)[k], pending[last].request_id));
        }
    }
}

/// Shutting down saves every worker as it stands, stops every agent and denies every request that
/// waits, one for each.
pub proof fn shutting_down_leaves_nothing_out(
    workers: Seq<WorkerRuntimeView>,
    pending: Seq<PendingPermission>,
    i: int,
    j: int,
)
    ensures
        manager::all_saves(workers).len() == workers.len(),
        manager::all_stops(workers).len() == workers.len(),
        manager::all_denials(pending).len() == pending.len(),
        0 <= i < workers.len() ==> manager::all_saves(workers)[i] == ManagerEffectView::SaveWorker(
            runtime::record_of(workers[i]),
        ) && manager::all_stops(workers)[i] == (ManagerEffectView::StopAgent {
            id: workers[i].snapshot.id,
        }),
        0 <= j < pending.len() ==> is_denial(
            manager::all_denials(pending)[j],
            pending[j].request_id,
        ),
{
}

proof fn lemma_digits_differ(a: nat, b: nat, front: Seq<char>, back: Seq<char>)
    requires
        a != b,
    ensures
        front + text::decimal(a) + back != front + text::decimal(b) + back,
{
    let x = front + text::decimal(a) + back;
    let y = front + text::decimal(b) + back;
    if x == y {
        text::decimal_gives_back(a);
        text::decimal_gives_back(b);
        assert(x.len() == front.len() + text::decimal(a).len() + back.len());
        assert(y.len() == front.len() + text::decimal(b).len() + back.len());
        assert(x.subrange(front.len() as int, x.len() - back.len()) =~= text::decimal(a));
        assert(y.subrange(front.len() as int, y.len() - back.len()) =~= text::decimal(b));
    }
}

/// Workers of different numbers get different names at any time, and the number stands in the
/// name.
pub proof fn made_up_names_differ(a: WorkerId, b: WorkerId, now: i64)
    requires
        a != b,
    ensures
        manager::default_name(a, now) != manager::default_name(b, now),
        manager::default_name(a, now) == "worker-"@ + text::decimal(a.0 as nat) + "-"@
            + text::signed_decimal(now as int),
{
    let t = text::signed_decimal(now as int);
    assert("worker-"@ + text::decimal(a.0 as nat) + "-"@ + t =~= "worker-"@ + text::decimal(
        a.0 as nat,
    ) + ("-"@ + t));
    assert("worker-"@ + text::decimal(b.0 as nat) + "-"@ + t =~= "worker-"@ + text::decimal(
        b.0 as nat,
    ) + ("-"@ + t));
    lemma_digits_differ(a.0 as nat, b.0 as nat, "worker-"@, "-"@ + t);
}

proof fn lemma_zero_counts_nothing(s: Seq<char>)
    ensures
        text::digits_value(seq!['0'] + s) == text::digits_value(s),
    decreases s.len(),
{
    let t = seq!['0'] + s;
    if s.len() == 0 {
        assert(t.drop_last() =~= Seq::<char>::empty());
        assert(text::digits_value(Seq::<char>::empty()) == 0);
    } else {
        assert(t.drop_last() =~= seq!['0'] + s.drop_last());
        lemma_zero_counts_nothing(s.drop_last());
    }
}

proof fn lemma_filled_gives_back(n: nat)
    ensures
        text::digits_value(text::decimal_3(n)) == n,
{
    reveal_strlit("0");
    reveal_strlit("00");
    let d = text::decimal(n);
    text::decimal_gives_back(n);
    lemma_zero_counts_nothing(d);
    lemma_zero_counts_nothing(seq!['0'] + d);
    assert("0"@ + d =~= seq!['0'] + d);
    assert("00"@ + d =~= seq!['0'] + (seq!['0'] + d));
}

/// Two workers get worktrees of different names, and so branches of different names.
pub proof fn made_up_worktrees_differ(a: WorkerId, b: WorkerId, now: i64, front: Seq<char>)
    requires
        a != b,
    ensures
        manager::worktree_name(a, now) != manager::worktree_name(b, now),
        front + manager::worktree_name(a, now) != front + manager::worktree_name(b, now),
        manager::worktree_name(a, now) == "worker-"@ + text::decimal_3(a.0 as nat) + "-"@
            + text::signed_decimal(now as int),
{
    let back = "-"@ + text::signed_decimal(now as int);
    let head = "worker-"@;
    let da = text::decimal_3(a.0 as nat);
    let db = text::decimal_3(b.0 as nat);
    let x = manager::worktree_name(a, now);
    let y = manager::worktree_name(b, now);
    lemma_filled_gives_back(a.0 as nat);
    lemma_filled_gives_back(b.0 as nat);
    assert(x =~= head + da + back);
    assert(y =~= head + db + back);
    if x == y {
        assert(x.subrange(head.len() as int, x.len() - back.len()) =~= da);
        assert(y.subrange(head.len() as int, y.len() - back.len()) =~= db);
    }
    assert((front + x).skip(front.len() as int) =~= x);
    assert((front + y).skip(front.len() as int) =~= y);
}

/// Whether a request waits for its answer.
pub open spec fn waits(m: ManagerView, request_id: u64) -> bool {
    exists|i: int| 0 <= i < m.pending.len() && (#[trigger] m.pending[i]).request_id == request_id
}

proof fn lemma_waits(m: ManagerView, request_id: u64)
    ensures
        waits(m, request_id) <==> model::first_index(
            manager::request_ids(m.pending),
            request_id,
        ) is Some,
        match model::first_index(manager::request_ids(m.pending), request_id) {
            Some(i) => 0 <= i < m.pending.len() && m.pending[i].request_id == request_id,
            None => true,
        },
{
    let ids = manager::request_ids(m.pending);
    model::first_index_is_first(ids, request_id);
    match model::first_index(ids, request_id) {
        Some(i) => {
            assert(ids[i] == request_id);
            assert(m.pending[i].request_id == request_id);
        },
        None => {
            assert forall|i: int| 0 <= i < m.pending.len() implies (
            #[trigger] m.pending[i]).request_id != request_id by {
                assert(ids[i] != request_id);
            }
        },
    }
}

/// A permission request that comes in waits for its answer, under the worker that asked, and is
/// reported as it came; whatever else waits goes on waiting, and nothing is answered.
pub proof fn requests_wait_for_their_answer(
    m: ManagerView,
    id: WorkerId,
    request: PermissionRequestView,
    other: PendingPermission,
)
    ensures
        ({
            let after = m.prompted(id, request);
            &&& after.pending.contains(
                PendingPermission { request_id: request.request_id, worker_id: id },
            )
            &&& other.request_id != request.request_id ==> (after.pending.contains(other)
                <==> m.pending.contains(other))
            &&& after.effects == m.effects.push(
                ManagerEffectView::Report(WorkerEventView::PermissionRequested { id, request }),
            )
            &&& after.workers == m.workers
        }),
{
    let after = m.prompted(id, request);
    let entry = PendingPermission { request_id: request.request_id, worker_id: id };
    lemma_waits(m, request.request_id);
    let place = match model::first_index(manager::request_ids(m.pending), request.request_id) {
        Some(i) => i,
        None => m.pending.len() as int,
    };
    assert(after.pending[place] == entry);
    if other.request_id != request.request_id {
        if m.pending.contains(other) {
            let k = choose|k: int| 0 <= k < m.pending.len() && m.pending[k] == other;
            assert(after.pending[k] == other);
        }
        if after.pending.contains(other) {
            let k = choose|k: int| 0 <= k < after.pending.len() && after.pending[k] == other;
            assert(k != place);
            assert(m.pending[k] == other);
        }
    }
}

/// The answer to a request that waits goes to it as it was given, once, and is reported; it no
/// longer waits, and what else waits goes on waiting. An answer to anything else goes nowhere.
pub proof fn answers_go_to_their_request(
    m: ManagerView,
    id: WorkerId,
    request_id: u64,
    decision: PermissionDecisionView,
    other: PendingPermission,
)
    ensures
        ({
            let after = m.responded(id, request_id, decision);
            &&& waits(m, request_id) ==> {
                &&& after.effects == m.effects.push(
                    ManagerEffectView::Answer { request_id, decision },
                ).push(
                    ManagerEffectView::Report(
                        WorkerEventView::PermissionResolved { id, request_id, decision },
                    ),
                )
                &&& after.pending.len() == m.pending.len() - 1
                &&& other.request_id != request_id ==> (after.pending.contains(other)
                    <==> m.pending.contains(other))
            }
            &&& !waits(m, request_id) ==> {
                &&& after.pending == m.pending
                &&& after.effects.len() == m.effects.len() + 1
                &&& after.effects.last() == ManagerEffectView::Report(
                    WorkerEventView::Error {
                        id: Some(id),
                        message: "permission request "@ + text::decimal(request_id as nat)
                            + " not found"@,
                    },
                )
            }
            &&& after.workers == m.workers
        }),
{
    let after = m.responded(id, request_id, decision);
    lemma_waits(m, request_id);
    match model::first_index(manager::request_ids(m.pending), request_id) {
        Some(i) => {
            if other.request_id != request_id {
                if m.pending.contains(other) {
                    let k = choose|k: int| 0 <= k < m.pending.len() && m.pending[k] == other;
                    let j = if k < i {
                        k
                    } else {
                        k - 1
                    };
                    assert(after.pending[j] == other);
                }
                if after.pending.contains(other) {
                    let k = choose|k: int|
                        0 <= k < after.pending.len() && after.pending[k] == other;
                    let j = if k < i {
                        k
                    } else {
                        k + 1
                    };
                    assert(m.pending[j] == other);
                }
            }
        },
        None => {},
    }
}

/// A request that is answered leaves nothing behind: what waits is what waited before it came.
pub proof fn answered_requests_leave_nothing_behind(
    m: ManagerView,
    id: WorkerId,
    request: PermissionRequestView,
    decision: PermissionDecisionView,
)
    requires
        !waits(m, request.request_id),
    ensures
        m.prompted(id, request).responded(id, request.request_id, decision).pending == m.pending,
{
    let asked = m.prompted(id, request);
    lemma_waits(m, request.request_id);
    lemma_waits(asked, request.request_id);
    let n = m.pending.len() as int;
    assert(asked.pending[n].request_id == request.request_id);
    let k = model::first_index(manager::request_ids(asked.pending), request.request_id)->0;
    assert(k == n) by {
        if k < n {
            assert(m.pending[k].request_id == request.request_id);
        }
    }
    assert(asked.pending.remove(n) =~= m.pending);
}

/// The agent of a worker that is there is stopped, and no other; of one that is not there nothing
/// is stopped.
pub proof fn only_the_worker_that_is_meant_is_stopped(m: ManagerView, id: WorkerId, i: int)
    requires
        m.wf(),
    ensures
        holds(m, i, id) ==> m.stopping(id).effects == m.effects.push(
            ManagerEffectView::StopAgent { id },
        ),
        (forall|j: int| 0 <= j < m.workers.len() ==> (#[trigger] m.workers[j]).snapshot.id != id)
            ==> m.stopping(id) == m,
        m.stopping(id).workers == m.workers,
        m.stopping(id).pending == m.pending,
{
    if holds(m, i, id) {
        lemma_find(m, i, id);
    }
    if forall|j: int| 0 <= j < m.workers.len() ==> (#[trigger] m.workers[j]).snapshot.id != id {
        let ids = manager::worker_ids(m.workers);
        model::first_index_is_first(ids, id);
        if let Some(k) = m.find(id) {
            assert(ids[k] == id);
            assert(m.workers[k].snapshot.id == id);
        }
    }
}

/// Where the file of a worker could not get its new name, the names are as they were before the
/// worker was renamed.
pub proof fn names_are_given_back(m: ManagerView, id: WorkerId, i: int, new_name: Seq<char>)
    requires
        m.wf(),
        holds(m, i, id),
        m.names.contains_key(m.workers[i].snapshot.name),
        m.names[m.workers[i].snapshot.name] == id,
        !m.names.contains_key(new_name),
    ensures
        m.renamed(id, new_name).name_given_back(id, m.workers[i].snapshot.name, new_name).names
            == m.names,
{
    lemma_find(m, i, id);
    let old_name = m.workers[i].snapshot.name;
    let after = m.renamed(id, new_name);
    assert(after.names =~= m.names.remove(old_name).insert(new_name, id));
    assert(after.name_given_back(id, old_name, new_name).names =~= m.names);
}

/// A deletion is reported with the worktree that is gone, the worker's file is deleted, and the
/// requests of the worker are denied; where git failed, what it said is reported before.
pub proof fn deletions_are_reported(
    m: ManagerView,
    id: WorkerId,
    plan: DeletePlanView,
    output: CommandOutputView,
)
    ensures
        ({
            let after = m.deletion_ended(id, plan, output);
            let n = m.effects.len() as int;
            let at = if output.success {
                n
            } else {
                n + 1
            };
            &&& after.workers == m.workers
            &&& after.pending == m.cancelling(id).pending
            &&& after.effects.take(n) == m.effects
            &&& !output.success ==> after.effects[n] == ManagerEffectView::Report(
                WorkerEventView::Error {
                    id: Some(id),
                    message: "git branch -D "@ + plan.branch + " failed: stdout='"@
                        + text::trimmed(output.stdout) + "' stderr='"@ + text::trimmed(
                        output.stderr,
                    ) + "'"@,
                },
            )
            &&& after.effects[at] == ManagerEffectView::Report(
                WorkerEventView::Deleted {
                    id,
                    message: "Removed worktree "@ + plan.worktree_path,
                },
            )
            &&& after.effects[at + 1] == ManagerEffectView::DeleteWorkerFile { name: plan.name }
            &&& after.effects.skip(at + 2) == m.cancelling(id).effects.skip(n)
        }),
{
    let after = m.deletion_ended(id, plan, output);
    let n = m.effects.len() as int;
    let at = if output.success {
        n
    } else {
        n + 1
    };
    assert(after.effects.take(n) =~= m.effects);
    assert(after.effects.skip(at + 2) =~= m.cancelling(id).effects.skip(n));
}

} // verus!
