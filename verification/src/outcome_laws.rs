//! What comes of a call, whatever it was given: of a command, of a run of the agent, of a choice
//! between what is set and what is not.
use crate::config::{sandbox_enabled, ClaudeStep};
use crate::product::Product;
use crate::state::{first_id, ManagerState, SessionHistory, StateError, StateStore};
use crate::text;
use crate::text_laws;
use crate::worker::claude::{claude_binary, finish_run, ClaudeError, ClaudeRun};
use crate::worker::command::{determine_base_ref, run_shell_command, CommandError};
use crate::worker::command_laws;
use crate::worker::manager::{
    base_ref, worktree_added, CommandOutput, ManagerError, WorkerManager, WorktreePlan,
};
use crate::worker::manager_laws;
use crate::worker::{CreateWorkerRequest, WorkerId};
use vstd::prelude::*;

verus! {

/// A shell command gives its lines exactly where it succeeded: those that are written on standard
/// output, then those on standard error, blank ones left out. Where it failed the error names the
/// command.
pub proof fn commands_give_their_lines_where_they_succeed(
    command: &str,
    stdout: &str,
    stderr: &str,
    success: bool,
    status: &str,
    r: Result<Vec<String>, CommandError>,
    out: Seq<char>,
    err: Seq<char>,
)
    requires
        call_ensures(run_shell_command, (command, stdout, stderr, success, status), r),
        stdout@ == out + "\n"@,
        stderr@ == err + "\n"@,
        !out.contains('\n') && !text_laws::all_space(out) && out.last() != '\r',
        !err.contains('\n') && !text_laws::all_space(err) && err.last() != '\r',
    ensures
        success ==> (r matches Ok(lines) && lines.deep_view() == seq![out, err]),
        !success ==> (r matches Err(error) && error.command@ == command@ && error.status@
            == status@),
{
    command_laws::lemma_only_line(out);
    command_laws::lemma_only_line(err);
    assert(seq![out] + seq![err] =~= seq![out, err]);
}

/// A run of the agent that ended well leaves its history, with everything that happened in it and
/// the prompt that it was given; one that did not is an error that tells its status.
pub proof fn runs_that_end_well_leave_their_history(
    run: ClaudeRun,
    prompt: &str,
    exit_code: u32,
    start: i128,
    end: i128,
    r: Result<(Option<String>, SessionHistory), ClaudeError>,
)
    requires
        call_ensures(finish_run, (run, prompt, exit_code, start, end), r),
    ensures
        r is Ok <==> exit_code == 0,
        r matches Ok((session, history)) ==> {
            &&& history.deep_view().events == run.deep_view().events
            &&& history.deep_view().prompt == prompt@
            &&& history.deep_view().files_modified == run.deep_view().files
            &&& history.deep_view().total_tool_uses == run.deep_view().tool_uses
            &&& session.deep_view() == run.deep_view().session_id
        },
        r matches Err(error) ==> error.exit_code == exit_code,
{
}

/// A worktree is made from the branch that git names, and from `HEAD` where it names none: where it
/// failed, where it said nothing, and where no branch is checked out.
pub proof fn worktrees_are_made_from_the_branch(
    success: bool,
    stdout: &str,
    found: Option<String>,
    base: String,
    branch: Seq<char>,
)
    requires
        call_ensures(determine_base_ref, (success, stdout), found),
        call_ensures(base_ref, (found,), base),
        text::trimmed(stdout@) == branch,
    ensures
        success && branch.len() > 0 ==> base@ == branch,
        !success || branch.len() == 0 ==> base@ == "HEAD"@,
{
}

/// Adding a worktree succeeds exactly where git was run and succeeded.
pub proof fn worktrees_are_added_by_git(
    output: Option<CommandOutput>,
    r: Result<(), ManagerError>,
)
    requires
        call_ensures(worktree_added, (output,), r),
    ensures
        r is Ok <==> match output {
            Some(out) => out.success,
            None => false,
        },
{
}

/// What a step says of its sandbox holds; the default holds where it says nothing.
pub proof fn steps_decide_on_their_sandbox(
    step: &ClaudeStep,
    default_mode: bool,
    sandboxed: bool,
    r: bool,
)
    requires
        call_ensures(sandbox_enabled, (step, default_mode), r),
    ensures
        step.sandbox_mode == Some(sandboxed) ==> r == sandboxed,
        step.sandbox_mode is None ==> r == default_mode,
{
}

/// The agent is run from where it is set to be; else from its own directory, where it is there,
/// and by its name where it is not.
pub proof fn the_agent_that_is_set_is_run(
    configured: Option<String>,
    local: String,
    local_exists: bool,
    product: &Product,
    r: String,
)
    requires
        call_ensures(claude_binary, (configured, local, local_exists, product), r),
    ensures
        configured matches Some(c) ==> r@ == c@,
        configured is None && local_exists ==> r@ == local@,
        configured is None && !local_exists ==> r@ == product.command@,
{
}

/// New workers are numbered from where the numbers had come to, and from one on at the least.
pub proof fn numbers_go_on(state: Option<ManagerState>, r: usize)
    requires
        call_ensures(first_id, (state,), r),
    ensures
        r >= 1,
        state matches Some(s) ==> r >= s.next_id,
        state matches Some(s) ==> s.next_id >= 1 ==> r == s.next_id,
        state is None ==> r == 1,
{
}

/// A worker for which a worktree is given works there, on its branch, and nothing is made for it;
/// any other gets a worktree and a branch of its own, and no two workers share one.
pub proof fn workers_do_not_share_new_worktrees(
    manager: &WorkerManager,
    a: WorkerId,
    b: WorkerId,
    request: &CreateWorkerRequest,
    now: i64,
    of_a: WorktreePlan,
    of_b: WorktreePlan,
)
    requires
        call_ensures(WorkerManager::plan_worktree, (manager, a, request, now), of_a),
        call_ensures(WorkerManager::plan_worktree, (manager, b, request, now), of_b),
        a != b,
    ensures
        of_a.fresh <==> request.existing_worktree is None,
        request.existing_worktree matches Some((path, branch)) ==> of_a.path@ == path@
            && of_a.branch@ == branch@,
        request.existing_worktree is None ==> of_a.branch@ != of_b.branch@ && of_a.rel@
            != of_b.rel@,
{
    if request.existing_worktree is None {
        manager_laws::made_up_worktrees_differ(a, b, now, ".worktrees/"@);
        manager_laws::made_up_worktrees_differ(a, b, now, "gensui/"@);
    }
}

/// The file of a worker gets its new name only where there is one to rename and none of the new
/// name would be lost.
pub proof fn files_are_renamed_without_loss(
    store: &StateStore,
    old_name: &str,
    new_name: &str,
    old_exists: bool,
    new_exists: bool,
    r: Result<(String, String), StateError>,
)
    requires
        call_ensures(
            StateStore::rename_worker,
            (store, old_name, new_name, old_exists, new_exists),
            r,
        ),
    ensures
        r is Ok <==> old_exists && !new_exists,
        !old_exists ==> r matches Err(StateError::NotFound(_)),
        old_exists && new_exists ==> r matches Err(StateError::AlreadyExists(_)),
{
}

} // verus!
