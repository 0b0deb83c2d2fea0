//! What holds of every step of a run: what is asked for, what is run, and what is told of it.
use crate::log_parser;
use crate::state::SessionHistoryView;
use crate::text;
use crate::text_laws;
use crate::ui::modals;
use crate::worker::agent::{self, AgentActionView, AgentPhase, AgentRunView};
use crate::worker::runtime::WorkerRuntimeView;
use crate::worker::{PermissionDecisionView, WorkerEventView, WorkerStatus};
use vstd::prelude::*;

verus! {

/// Whether a line has been logged and reported between two states of a worker.
pub open spec fn told(before: WorkerRuntimeView, after: WorkerRuntimeView, line: Seq<char>) -> bool {
    exists|i: int|
        before.events.len() <= i < after.events.len() && #[trigger] after.events[i]
            == WorkerEventView::Log { id: before.snapshot.id, line }
}

/// Whether some lines have been logged and reported between two states of a worker, one directly
/// after the other.
pub open spec fn told_all(
    before: WorkerRuntimeView,
    after: WorkerRuntimeView,
    lines: Seq<Seq<char>>,
) -> bool {
    exists|at: int| #[trigger] told_from(before, after, lines, at)
}

/// Whether some lines have been reported from one event on.
pub open spec fn told_from(
    before: WorkerRuntimeView,
    after: WorkerRuntimeView,
    lines: Seq<Seq<char>>,
    at: int,
) -> bool {
    &&& before.events.len() <= at
    &&& at + lines.len() <= after.events.len()
    &&& forall|i: int|
        0 <= i < lines.len() ==> #[trigger] after.events[at + i] == (WorkerEventView::Log {
            id: before.snapshot.id,
            line: lines[i],
        })
}

/// What is logged is reported, line by line, and nothing else is.
pub proof fn logged_lines_are_reported(rt: WorkerRuntimeView, lines: Seq<Seq<char>>)
    ensures
        rt.logged_all(lines).events == rt.events + Seq::new(
            lines.len(),
            |i: int| WorkerEventView::Log { id: rt.snapshot.id, line: lines[i] },
        ),
        lines.len() > 0 ==> rt.logged_all(lines).logs.last() == lines.last(),
    decreases lines.len(),
{
    if lines.len() > 0 {
        let front = lines.drop_last();
        logged_lines_are_reported(rt, front);
        agent::logging_changes_nothing_shown(rt, front);
    }
    assert(rt.logged_all(lines).events =~= rt.events + Seq::new(
        lines.len(),
        |i: int| WorkerEventView::Log { id: rt.snapshot.id, line: lines[i] },
    ));
}

/// Whether one state of a worker comes after another: it is the same worker, and what was reported
/// before still is.
spec fn follows(before: WorkerRuntimeView, after: WorkerRuntimeView) -> bool {
    &&& before.snapshot.id == after.snapshot.id
    &&& before.events.is_prefix_of(after.events)
}

proof fn lemma_follows(a: WorkerRuntimeView, b: WorkerRuntimeView, c: WorkerRuntimeView)
    requires
        follows(a, b),
        follows(b, c),
    ensures
        follows(a, c),
{
    assert(c.events.take(a.events.len() as int) =~= b.events.take(a.events.len() as int));
}

proof fn lemma_logged_follows(rt: WorkerRuntimeView, lines: Seq<Seq<char>>)
    ensures
        follows(rt, rt.logged_all(lines)),
        told_from(rt, rt.logged_all(lines), lines, rt.events.len() as int),
{
    logged_lines_are_reported(rt, lines);
    agent::logging_changes_nothing_shown(rt, lines);
    assert(rt.logged_all(lines).events.take(rt.events.len() as int) =~= rt.events);
}

proof fn lemma_line_follows(rt: WorkerRuntimeView, line: Seq<char>)
    ensures
        follows(rt, rt.logged(line)),
        rt.logged(line).events.last() == (WorkerEventView::Log { id: rt.snapshot.id, line }),
{
    assert(rt.logged(line).events.take(rt.events.len() as int) =~= rt.events);
}

proof fn lemma_told_stays(
    start: WorkerRuntimeView,
    a: WorkerRuntimeView,
    b: WorkerRuntimeView,
    end: WorkerRuntimeView,
    lines: Seq<Seq<char>>,
    at: int,
)
    requires
        follows(start, a),
        told_from(a, b, lines, at),
        follows(b, end),
    ensures
        told_from(start, end, lines, at),
{
    assert forall|i: int| 0 <= i < lines.len() implies #[trigger] end.events[at + i] == (
    WorkerEventView::Log { id: start.snapshot.id, line: lines[i] }) by {
        assert(b.events[at + i] == end.events.take(b.events.len() as int)[at + i]);
    }
}

/// A permission that is granted runs the agent of the step as the workflow configures it, but for
/// what the grant says: where it names tools the run gets exactly those, where it names none those
/// of the step; and the same holds of the permission mode. The session of the worker goes on.
pub proof fn grants_change_only_what_they_name(
    run: AgentRunView,
    rt: WorkerRuntimeView,
    mode: Option<Seq<char>>,
    tools: Option<Seq<Seq<char>>>,
)
    requires
        run.phase == AgentPhase::Waiting,
        run.wf(),
    ensures
        ({
            let configured = run.workflow.steps[run.index as int].claude->0;
            let t = run.answered(
                rt,
                Some(
                    PermissionDecisionView::Allow { permission_mode: mode, allowed_tools: tools },
                ),
            );
            &&& t.run.phase == AgentPhase::Prompting
            &&& t.run.index == run.index
            &&& t.run.workflow == run.workflow
            &&& t.action matches AgentActionView::RunClaude { step, prompt, session_id } && {
                &&& tools is None ==> step.allowed_tools == configured.allowed_tools
                &&& tools is Some ==> step.allowed_tools == tools
                &&& mode is None ==> step.permission_mode == configured.permission_mode
                &&& mode is Some ==> step.permission_mode == mode
                &&& step.prompt == configured.prompt
                &&& step.model == configured.model
                &&& step.extra_args == configured.extra_args
                &&& step.sandbox_mode == configured.sandbox_mode
                &&& session_id == run.info.session_id
            }
        }),
{
}

/// The log of a run tells which tools the agent gets, which session it is run in, and the prompt
/// between its markers.
pub proof fn grants_are_told(
    run: AgentRunView,
    rt: WorkerRuntimeView,
    mode: Option<Seq<char>>,
    tools: Option<Seq<Seq<char>>>,
)
    requires
        run.phase == AgentPhase::Waiting,
        run.wf(),
    ensures
        ({
            let allow = PermissionDecisionView::Allow {
                permission_mode: mode,
                allowed_tools: tools,
            };
            let t = run.answered(rt, Some(allow));
            t.action matches AgentActionView::RunClaude { step, prompt, session_id } && {
                &&& told_all(
                    rt,
                    t.rt,
                    seq!["[PROMPT_START]"@, "─── Prompt ───"@] + text::lines(prompt) + seq![
                        "[PROMPT_END]"@,
                    ],
                )
                &&& step.allowed_tools matches Some(list) ==> list.len() > 0 ==> told(
                    rt,
                    t.rt,
                    "Allowed Tools: "@ + text::joined(list, ", "@),
                )
                &&& step.allowed_tools is None ==> told(rt, t.rt, "Allowed Tools: "@ + "全て"@)
                &&& step.model matches Some(model) ==> told(rt, t.rt, "Model: "@ + model)
                &&& session_id is Some ==> told(rt, t.rt, "Session: "@ + "継続"@)
                &&& session_id is None ==> told(rt, t.rt, "Session: "@ + "新規"@)
                &&& t.rt.snapshot.status == rt.snapshot.status
                &&& t.rt.completed_steps == rt.completed_steps
            }
        }),
{
    let allow = PermissionDecisionView::Allow { permission_mode: mode, allowed_tools: tools };
    let t = run.answered(rt, Some(allow));
    let step = run.granted(mode, tools);
    let agreed = rt.logged("権限が承認されました"@);
    let shown_prompt = agent::prompt_section(run.prompt());
    let a = agreed.logged_all(shown_prompt);
    let section = agent::command_section(
        run.product.name,
        run.claude(),
        step,
        run.info.session_id is Some,
    );
    let b = a.logged_all(section);
    let c = b.noting(run.product.name + "を実行中... ⏳"@);
    let d = c.logged_all(agent::waiting_section(run.product.name));
    lemma_line_follows(rt, "権限が承認されました"@);
    lemma_logged_follows(agreed, shown_prompt);
    lemma_logged_follows(a, section);
    agent::logging_changes_nothing_shown(agreed, shown_prompt);
    agent::logging_changes_nothing_shown(a, section);
    agent::logging_changes_nothing_shown(c, agent::waiting_section(run.product.name));
    assert(follows(b, c)) by {
        assert(c.events.take(b.events.len() as int) =~= b.events);
    }
    lemma_logged_follows(c, agent::waiting_section(run.product.name));
    lemma_follows(b, c, d);
    lemma_follows(a, b, d);
    lemma_follows(rt, agreed, a);
    assert(t.rt == d);
    lemma_told_stays(rt, agreed, a, d, shown_prompt, agreed.events.len() as int);
    assert(told_from(rt, d, shown_prompt, agreed.events.len() as int));
    lemma_told_stays(rt, a, b, d, section, a.events.len() as int);
    let at = a.events.len() as int;
    assert(d.events[at + 2] == (WorkerEventView::Log { id: rt.snapshot.id, line: section[2] }));
    assert(d.events[at + 3] == (WorkerEventView::Log { id: rt.snapshot.id, line: section[3] }));
    assert(d.events[at + 4] == (WorkerEventView::Log { id: rt.snapshot.id, line: section[4] }));
}

/// A step that runs an agent asks for what the workflow configures, under the number that was
/// drawn; a step that has none runs its shell command as it stands, or is done. Either way the
/// worker shows the step by its turn and its name, and its session goes on.
pub proof fn steps_ask_for_what_they_need(
    run: AgentRunView,
    rt: WorkerRuntimeView,
    request_id: u64,
)
    requires
        run.phase == AgentPhase::Ready,
        run.index < run.workflow.steps.len(),
    ensures
        ({
            let step = run.workflow.steps[run.index as int];
            let t = run.begin_step(rt, false, request_id);
            &&& step.claude matches Some(claude) ==> (t.action matches
                AgentActionView::AskPermission { request } && {
                &&& request.request_id == request_id
                &&& request.step_name == step.name
                &&& request.description == step.description
                &&& request.permission_mode == claude.permission_mode
                &&& request.allowed_tools == claude.allowed_tools
            })
            &&& step.claude is None ==> match step.command {
                Some(command) => t.action == (AgentActionView::RunCommand { command }),
                None => t.action is StepDone,
            }
            &&& t.rt.snapshot.status == WorkerStatus::Running
            &&& t.rt.snapshot.current_step == Some(
                text::decimal((run.index + 1) as nat) + "/"@ + text::decimal(
                    run.workflow.steps.len(),
                ) + ": "@ + step.name,
            )
            &&& t.run.info.session_id == rt.snapshot.session_id
            &&& t.run.workflow == run.workflow
            &&& step.description matches Some(d) ==> t.rt.snapshot.last_event == d
        }),
{
    let step = run.workflow.steps[run.index as int];
    if step.claude is None && step.command is None {
        let announced = rt.at(
            WorkerStatus::Running,
            run.step_description(),
            Some(run.step_label()),
        );
        let logged = announced.logged(
            log_parser::step_start_line(run.index as nat, run.step().name),
        ).logged("["@ + run.step().name + "] "@ + run.step_description());
        agent::logging_changes_nothing_shown(
            logged.logged("[RESULT_START]"@),
            seq!["(no-op step)"@],
        );
    }
}

/// A run begins with the first step that is not completed; a workflow without steps is not run.
pub proof fn runs_begin_where_they_stopped(
    run: AgentRunView,
    rt: WorkerRuntimeView,
    cancelled: bool,
)
    requires
        run.phase == AgentPhase::Starting,
    ensures
        ({
            let t = run.start(rt, cancelled);
            &&& run.workflow.steps.len() == 0 ==> t.action is Stop && t.rt.snapshot.status
                == WorkerStatus::Idle
            &&& run.workflow.steps.len() > 0 && !cancelled ==> t.action is Proceed && t.run.index
                == rt.completed_steps && t.run.phase == AgentPhase::Ready
            &&& cancelled ==> t.action is Stop && t.run.phase == AgentPhase::Stopped
            &&& t.rt.completed_steps == rt.completed_steps
            &&& t.run.workflow == run.workflow
            &&& run.workflow.steps.len() > 0 && rt.completed_steps == 0 ==> t.rt.snapshot.status
                == WorkerStatus::Running
            &&& run.workflow.steps.len() > 0 && rt.completed_steps > 0 ==> t.rt == rt
        }),
{
}

/// A run that is cancelled between two steps pauses before the next one, which is neither begun
/// nor counted.
pub proof fn cancelled_runs_pause(run: AgentRunView, rt: WorkerRuntimeView, request_id: u64)
    requires
        run.phase == AgentPhase::Ready,
        run.index < run.workflow.steps.len(),
    ensures
        ({
            let t = run.begin_step(rt, true, request_id);
            &&& t.action is Stop
            &&& t.run.phase == AgentPhase::Stopped
            &&& t.run.index == run.index
            &&& t.rt.snapshot.status == WorkerStatus::Paused
            &&& t.rt.snapshot.current_step is None
            &&& t.rt.completed_steps == rt.completed_steps
            &&& t.rt.logs == rt.logs
        }),
{
}

/// A request that has been sent is waited for; one that could not be sent, or whose answer got
/// lost, ends the run with the worker failed and why in its log.
pub proof fn lost_requests_fail(run: AgentRunView, rt: WorkerRuntimeView, error: Seq<char>)
    requires
        run.phase == AgentPhase::Asking || run.phase == AgentPhase::Waiting,
        run.wf(),
    ensures
        ({
            let t = run.asked(rt, None);
            &&& t.action is AwaitPermission
            &&& t.run.phase == AgentPhase::Waiting
            &&& t.rt.snapshot.status == rt.snapshot.status
            &&& t.run.request_id == run.request_id
        }),
        ({
            let t = run.asked(rt, Some(error));
            &&& t.action is Stop
            &&& t.rt.snapshot.status == WorkerStatus::Failed
            &&& t.rt.completed_steps == rt.completed_steps
            &&& told(rt, t.rt, "権限要求をエンキューできませんでした: "@ + error)
        }),
        ({
            let t = run.answered(rt, None);
            &&& t.action is Stop
            &&& t.rt.snapshot.status == WorkerStatus::Failed
            &&& t.rt.completed_steps == rt.completed_steps
        }),
{
    let t = run.asked(rt, Some(error));
    assert(t.rt.events[rt.events.len() as int] == (WorkerEventView::Log {
        id: rt.snapshot.id,
        line: "権限要求をエンキューできませんでした: "@ + error,
    }));
}

/// The lines that a shell command gave are logged as its result, in order and between markers, and
/// the step counts as completed; a command that failed is told of and reported as an error.
pub proof fn results_of_commands_are_told(
    run: AgentRunView,
    rt: WorkerRuntimeView,
    lines: Seq<Seq<char>>,
    error: Seq<char>,
)
    requires
        run.phase == AgentPhase::Executing,
        run.wf(),
        rt.completed_steps < usize::MAX,
        run.workflow.steps.len() <= usize::MAX,
    ensures
        ({
            let t = run.command_done(rt, Ok(lines));
            &&& t.action is StepDone
            &&& t.run.index == run.index + 1
            &&& t.rt.completed_steps == rt.completed_steps + 1
            &&& told_all(
                rt,
                t.rt,
                seq!["[RESULT_START]"@] + lines + seq!["[RESULT_END]"@, "[STEP_END:Success]"@],
            )
            &&& t.rt.snapshot == rt.snapshot
        }),
        ({
            let t = run.command_done(rt, Err(error));
            &&& t.action is Stop
            &&& t.rt.completed_steps == rt.completed_steps
            &&& t.rt.snapshot.status == WorkerStatus::Failed
            &&& t.rt.snapshot.last_event == "Command failed: "@ + error
            &&& told_all(
                rt,
                t.rt,
                seq![
                    "[RESULT_START]"@,
                    "Error: "@ + error,
                    "[RESULT_END]"@,
                    "[STEP_END:Failed]"@,
                ],
            )
            &&& t.rt.events.last() == (WorkerEventView::Error {
                id: Some(rt.snapshot.id),
                message: error,
            })
        }),
{
    let t = run.command_done(rt, Ok(lines));
    let all = seq!["[RESULT_START]"@] + lines + seq!["[RESULT_END]"@, "[STEP_END:Success]"@];
    let a = rt.logged("[RESULT_START]"@);
    logged_lines_are_reported(a, lines);
    agent::logging_changes_nothing_shown(a, lines);
    let n = rt.events.len() as int;
    assert forall|i: int| 0 <= i < all.len() implies #[trigger] t.rt.events[n + i] == (
    WorkerEventView::Log { id: rt.snapshot.id, line: all[i] }) by {
        if 0 < i <= lines.len() {
            assert(all[i] == lines[i - 1]);
        }
    }
    assert(told_from(rt, t.rt, all, n));
    let f = run.command_done(rt, Err(error));
    assert(told_from(
        rt,
        f.rt,
        seq!["[RESULT_START]"@, "Error: "@ + error, "[RESULT_END]"@, "[STEP_END:Failed]"@],
        n,
    ));
}

/// What the agent had to say is logged, in order; a session that it leaves becomes the session of
/// the worker, and without one the worker keeps its own; the history is added to those before it.
/// An agent that failed leaves session and histories as they were.
pub proof fn results_of_agents_are_kept(
    run: AgentRunView,
    rt: WorkerRuntimeView,
    log: Seq<Seq<char>>,
    session_id: Option<Seq<char>>,
    history: SessionHistoryView,
    error: Seq<char>,
)
    requires
        run.phase == AgentPhase::Prompting,
        run.wf(),
        rt.completed_steps < usize::MAX,
        run.workflow.steps.len() <= usize::MAX,
    ensures
        ({
            let t = run.claude_done(rt, log, Ok((session_id, history)));
            &&& t.action is StepDone
            &&& t.run.index == run.index + 1
            &&& t.rt.completed_steps == rt.completed_steps + 1
            &&& session_id is Some ==> t.rt.snapshot.session_id == session_id
            &&& session_id is None ==> t.rt.snapshot.session_id == rt.snapshot.session_id
            &&& t.rt.session_histories == rt.session_histories.push(history)
            &&& t.rt.snapshot.status == rt.snapshot.status
            &&& told_all(rt, t.rt, log)
        }),
        ({
            let t = run.claude_done(rt, log, Err(error));
            &&& t.action is Stop
            &&& t.rt.completed_steps == rt.completed_steps
            &&& t.rt.snapshot.session_id == rt.snapshot.session_id
            &&& t.rt.session_histories == rt.session_histories
            &&& t.rt.snapshot.status == WorkerStatus::Failed
            &&& t.rt.snapshot.last_event == "Command failed: "@ + error
            &&& told_all(rt, t.rt, log)
        }),
{
    let heard = rt.logged_all(log);
    let said = heard.logged_all(agent::done_section(run.product.name));
    lemma_logged_follows(rt, log);
    lemma_logged_follows(heard, agent::done_section(run.product.name));
    agent::logging_changes_nothing_shown(rt, log);
    agent::logging_changes_nothing_shown(heard, agent::done_section(run.product.name));
    let n = rt.events.len() as int;
    let t = run.claude_done(rt, log, Ok((session_id, history)));
    let noted = match session_id {
        Some(id) => said.updated(
            crate::worker::WorkerSnapshotView { session_id: Some(id), ..said.snapshot },
        ),
        None => said,
    };
    let kept = noted.with_history(history);
    let empty = Seq::<Seq<char>>::empty();
    agent::logging_changes_nothing_shown(kept.logged("[RESULT_START]"@), empty);
    assert(kept.logged("[RESULT_START]"@).logged_all(empty) == kept.logged("[RESULT_START]"@));
    assert(follows(heard, t.rt)) by {
        assert(t.rt.events.take(heard.events.len() as int) =~= heard.events.take(
            heard.events.len() as int,
        )) by {
            assert(said.events.take(heard.events.len() as int) =~= heard.events);
        }
        assert(heard.events.take(heard.events.len() as int) =~= heard.events);
    }
    assert(follows(rt, rt)) by {
        assert(rt.events.take(rt.events.len() as int) =~= rt.events);
    }
    lemma_told_stays(rt, rt, heard, t.rt, log, n);
    let f = run.claude_done(rt, log, Err(error));
    assert(follows(heard, f.rt)) by {
        assert(f.rt.events.take(heard.events.len() as int) =~= heard.events) by {
            assert(said.events.take(heard.events.len() as int) =~= heard.events);
        }
    }
    lemma_told_stays(rt, rt, heard, f.rt, log, n);
}

/// From the beginning of a step to its agent: a grant that names no tools and no mode runs the
/// agent with exactly what the workflow configures for the step, in the session that the worker
/// has when the step begins.
pub proof fn plain_grants_run_the_step_as_configured(
    run: AgentRunView,
    rt: WorkerRuntimeView,
    request_id: u64,
)
    requires
        run.phase == AgentPhase::Ready,
        run.index < run.workflow.steps.len(),
        run.workflow.steps[run.index as int].claude is Some,
    ensures
        ({
            let begun = run.begin_step(rt, false, request_id);
            let asked = begun.run.asked(begun.rt, None);
            let allow = PermissionDecisionView::Allow { permission_mode: None, allowed_tools: None };
            let t = asked.run.answered(asked.rt, Some(allow));
            t.action matches AgentActionView::RunClaude { step, prompt, session_id } && step
                == run.workflow.steps[run.index as int].claude->0 && session_id
                == rt.snapshot.session_id
        }),
{
}

/// Each placeholder of a prompt stands for what its name says of the worker: the issue, the name,
/// the branch, the worktree. The text around it stays, and a prompt without any is not changed.
pub proof fn placeholders_say_what_they_name(
    a: Seq<char>,
    b: Seq<char>,
    worker: crate::worker::WorkerSnapshotView,
)
    requires
        !a.contains('{'),
        !b.contains('{'),
        !worker.name.contains('{'),
        !worker.branch.contains('{'),
        worker.issue matches Some(issue) ==> !issue.contains('{'),
    ensures
        agent::prompt_for(a, worker) == a,
        worker.issue matches Some(issue) ==> agent::prompt_for(a + "{{issue}}"@ + b, worker) == a
            + issue + b,
        worker.issue is None ==> agent::prompt_for(a + "{{issue}}"@ + b, worker) == a
            + "(no issue)"@ + b,
        agent::prompt_for(a + "{{worker}}"@ + b, worker) == a + worker.name + b,
        agent::prompt_for(a + "{{branch}}"@ + b, worker) == a + worker.branch + b,
        agent::prompt_for(a + "{{worktree}}"@ + b, worker) == a + worker.worktree + b,
{
    let pi = "{{issue}}"@;
    let pw = "{{worker}}"@;
    let pb = "{{branch}}"@;
    let pt = "{{worktree}}"@;
    reveal_strlit("{{issue}}");
    reveal_strlit("{{worker}}");
    reveal_strlit("{{branch}}");
    reveal_strlit("{{worktree}}");
    reveal_strlit("(no issue)");
    let issue = match worker.issue {
        Some(i) => i,
        None => "(no issue)"@,
    };
    assert(!issue.contains('{'));
    text_laws::texts_without_braces_stay(a, pi, issue);
    text_laws::texts_without_braces_stay(a, pw, worker.name);
    text_laws::texts_without_braces_stay(a, pb, worker.branch);
    text_laws::texts_without_braces_stay(a, pt, worker.worktree);
    assert(!pi.skip(2).contains('{') && !pw.skip(2).contains('{') && !pb.skip(2).contains('{')
        && !pt.skip(2).contains('{'));
    text_laws::one_placeholder_is_replaced(a, pi, b, issue);
    text_laws::joined_without_braces(a, issue, b);
    text_laws::texts_without_braces_stay(a + issue + b, pw, worker.name);
    text_laws::texts_without_braces_stay(a + issue + b, pb, worker.branch);
    text_laws::texts_without_braces_stay(a + issue + b, pt, worker.worktree);
    text_laws::other_placeholders_stay(a, pw, b, pi, issue);
    text_laws::one_placeholder_is_replaced(a, pw, b, worker.name);
    text_laws::joined_without_braces(a, worker.name, b);
    text_laws::texts_without_braces_stay(a + worker.name + b, pb, worker.branch);
    text_laws::texts_without_braces_stay(a + worker.name + b, pt, worker.worktree);
    text_laws::other_placeholders_stay(a, pb, b, pi, issue);
    text_laws::other_placeholders_stay(a, pb, b, pw, worker.name);
    text_laws::one_placeholder_is_replaced(a, pb, b, worker.branch);
    text_laws::joined_without_braces(a, worker.branch, b);
    text_laws::texts_without_braces_stay(a + worker.branch + b, pt, worker.worktree);
    text_laws::other_placeholders_stay(a, pt, b, pi, issue);
    text_laws::other_placeholders_stay(a, pt, b, pw, worker.name);
    text_laws::other_placeholders_stay(a, pt, b, pb, worker.branch);
    text_laws::one_placeholder_is_replaced(a, pt, b, worker.worktree);
}

/// A step whose permission was asked for waits: the log names the request and the tools that are
/// asked for, and nothing is run. Where it could not be asked for, the run ends and the worker has
/// failed.
pub proof fn steps_wait_for_permission(
    run: AgentRunView,
    rt: WorkerRuntimeView,
    error: Option<Seq<char>>,
)
    requires
        run.wf(),
        run.phase == AgentPhase::Asking,
    ensures
        ({
            let t = run.asked(rt, error);
            let step = run.workflow.steps[run.index as int];
            &&& error is None ==> {
                &&& t.action is AwaitPermission
                &&& t.run.index == run.index
                &&& t.rt.logs.last() == "権限確認待ち (request #"@ + text::decimal(
                    run.request_id as nat,
                ) + ", tools: "@ + modals::tools_text(step.claude->0.allowed_tools) + ")"@
                &&& t.rt.snapshot.last_event == "ステップ '"@ + step.name
                    + "' の権限確認を待機中"@
                &&& t.rt.snapshot.status == rt.snapshot.status
            }
            &&& error is Some ==> {
                &&& t.action is Stop
                &&& t.rt.snapshot.status == WorkerStatus::Failed
                &&& t.rt.completed_steps == rt.completed_steps
            }
        }),
{
}

} // verus!
