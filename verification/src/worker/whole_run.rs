//! Whole runs of an agent: its steps one after the other, with what comes of each outside.
use crate::config::WorkflowStepView;
use crate::log_parser;
use crate::state::SessionHistoryView;
use crate::worker::agent::{self, AgentActionView, AgentRunView, Turn};
use crate::worker::runtime::WorkerRuntimeView;
use crate::worker::{PermissionDecisionView, WorkerSnapshotView, WorkerStatus};
use vstd::prelude::*;

verus! {

/// What comes of a step outside: of its permission request, of its agent and of its shell
/// command, as far as it has them.
pub struct StepOutcome {
    pub request_id: u64,
    pub ask_error: Option<Seq<char>>,
    pub decision: Option<PermissionDecisionView>,
    pub log: Seq<Seq<char>>,
    pub session: Result<(Option<Seq<char>>, SessionHistoryView), Seq<char>>,
    pub command: Result<Seq<Seq<char>>, Seq<char>>,
}

impl StepOutcome {
    /// Whether the permission for a step is denied.
    pub open spec fn denies(self, step: WorkflowStepView) -> bool {
        step.claude is Some && self.ask_error is None && self.decision == Some(
            PermissionDecisionView::Deny,
        )
    }

    /// Whether a step gets to run: its agent is permitted, or it needs no permission.
    pub open spec fn permits(self, step: WorkflowStepView) -> bool {
        step.claude is Some ==> self.ask_error is None && self.decision is Some
            && self.decision->0 is Allow
    }

    /// Whether a step succeeds: its agent is permitted and ends well, or its shell command does;
    /// a step that has neither always succeeds.
    pub open spec fn succeeds(self, step: WorkflowStepView) -> bool {
        if step.claude is Some {
            self.ask_error is None && self.decision is Some && self.decision->0 is Allow
                && self.session is Ok
        } else {
            step.command is Some ==> self.command is Ok
        }
    }
}

impl Turn {
    /// Whether the run goes on with its next step.
    pub open spec fn goes_on(self) -> bool {
        self.action is Proceed || self.action is StepDone
    }
}

/// The steps that a run has begun, in this order, and where it stands.
pub struct Progress {
    pub begun: Seq<int>,
    pub turn: Turn,
}

impl AgentRunView {
    /// After the step that the run is at, from its beginning to its end.
    #[verifier::opaque]
    pub open spec fn after_step(self, rt: WorkerRuntimeView, outcome: StepOutcome) -> Turn {
        let begun = self.begin_step(rt, false, outcome.request_id);
        if begun.action is AskPermission {
            let asked = begun.run.asked(begun.rt, outcome.ask_error);
            if asked.action is AwaitPermission {
                let answered = asked.run.answered(asked.rt, outcome.decision);
                if answered.action is RunClaude {
                    answered.run.claude_done(answered.rt, outcome.log, outcome.session)
                } else {
                    answered
                }
            } else {
                asked
            }
        } else if begun.action is RunCommand {
            begun.run.command_done(begun.rt, outcome.command)
        } else {
            begun
        }
    }

    /// After at most `n` turns that each take a step or find that there is none left; what comes
    /// of each step is given by its place in the workflow.
    pub open spec fn after_turns(
        self,
        rt: WorkerRuntimeView,
        outcomes: spec_fn(int) -> StepOutcome,
        n: nat,
    ) -> Progress
        decreases n,
    {
        if n == 0 {
            Progress {
                begun: seq![],
                turn: Turn { run: self, rt, action: AgentActionView::Proceed },
            }
        } else {
            let before = self.after_turns(rt, outcomes, (n - 1) as nat);
            let run = before.turn.run;
            if before.turn.goes_on() {
                Progress {
                    begun: if run.index < run.workflow.steps.len() {
                        before.begun.push(run.index as int)
                    } else {
                        before.begun
                    },
                    turn: run.after_step(before.turn.rt, outcomes(run.index as int)),
                }
            } else {
                before
            }
        }
    }
}

/// The places of the steps from `from` on, one after the other.
pub open spec fn places(from: int, count: nat) -> Seq<int> {
    Seq::new(count, |i: int| from + i)
}

/// What a step begins with changes neither the workflow nor the place in it, unless the step
/// has nothing to do: then it is done.
proof fn lemma_begins(run: AgentRunView, rt: WorkerRuntimeView, request_id: u64)
    requires
        run.index < run.workflow.steps.len() <= usize::MAX,
        rt.completed_steps < usize::MAX,
    ensures
        ({
            let t = run.begin_step(rt, false, request_id);
            &&& t.run.workflow == run.workflow
            &&& run.step().claude is Some ==> t.action is AskPermission && t.run.index == run.index
                && t.rt.completed_steps == rt.completed_steps
            &&& run.step().claude is None && run.step().command is Some ==> t.action is RunCommand
                && t.run.index == run.index && t.rt.completed_steps == rt.completed_steps
            &&& run.step().claude is None && run.step().command is None ==> t.action is StepDone
                && t.run.index == run.index + 1 && t.rt.completed_steps == rt.completed_steps + 1
        }),
{
    if run.step().claude is None && run.step().command is None {
        let announced = rt.at(
            WorkerStatus::Running,
            run.step_description(),
            Some(run.step_label()),
        );
        let logged = announced.logged(
            log_parser::step_start_line(run.index as nat, run.step().name),
        ).logged("["@ + run.step().name + "] "@ + run.step_description());
        lemma_succeeds(
            AgentRunView { info: announced.snapshot, ..run },
            logged,
            seq!["(no-op step)"@],
        );
    }
}

/// A step that succeeds is counted and leads to the next one.
proof fn lemma_succeeds(run: AgentRunView, rt: WorkerRuntimeView, lines: Seq<Seq<char>>)
    requires
        run.index < usize::MAX,
        rt.completed_steps < usize::MAX,
    ensures
        ({
            let t = run.succeed(rt, lines);
            &&& t.run.workflow == run.workflow
            &&& t.action is StepDone
            &&& t.run.index == run.index + 1
            &&& t.rt.completed_steps == rt.completed_steps + 1
        }),
{
    agent::logging_changes_nothing_shown(rt.logged("[RESULT_START]"@), lines);
}

/// A permission that is granted leads to the agent of the step.
proof fn lemma_permitted(
    run: AgentRunView,
    rt: WorkerRuntimeView,
    mode: Option<Seq<char>>,
    tools: Option<Seq<Seq<char>>>,
)
    ensures
        ({
            let t = run.answered(
                rt,
                Some(
                    PermissionDecisionView::Allow { permission_mode: mode, allowed_tools: tools },
                ),
            );
            &&& t.run.workflow == run.workflow
            &&& t.run.index == run.index
            &&& t.action is RunClaude
            &&& t.rt.completed_steps == rt.completed_steps
        }),
{
    let agreed = rt.logged("権限が承認されました"@);
    let prompt = agent::prompt_section(run.prompt());
    let shown = agreed.logged_all(prompt);
    let command = agent::command_section(
        run.product.name,
        run.claude(),
        run.granted(mode, tools),
        run.info.session_id is Some,
    );
    let noted = shown.logged_all(command).noting(run.product.name + "を実行中... ⏳"@);
    agent::logging_changes_nothing_shown(agreed, prompt);
    agent::logging_changes_nothing_shown(shown, command);
    agent::logging_changes_nothing_shown(noted, agent::waiting_section(run.product.name));
}

/// An agent that ends well completes its step, and one that does not ends the run.
proof fn lemma_agent_ends(
    run: AgentRunView,
    rt: WorkerRuntimeView,
    log: Seq<Seq<char>>,
    session: Result<(Option<Seq<char>>, SessionHistoryView), Seq<char>>,
)
    requires
        run.index < usize::MAX,
        rt.completed_steps < usize::MAX,
    ensures
        ({
            let t = run.claude_done(rt, log, session);
            &&& t.run.workflow == run.workflow
            &&& session is Ok ==> t.action is StepDone && t.run.index == run.index + 1
                && t.rt.completed_steps == rt.completed_steps + 1
            &&& session is Err ==> t.action is Stop && t.rt.completed_steps == rt.completed_steps
                && t.rt.snapshot.status == WorkerStatus::Failed && t.rt.snapshot.current_step
                == Some(run.step_label())
        }),
{
    let heard = rt.logged_all(log);
    agent::logging_changes_nothing_shown(rt, log);
    agent::logging_changes_nothing_shown(heard, agent::done_section(run.product.name));
    let said = heard.logged_all(agent::done_section(run.product.name));
    match session {
        Ok((session_id, history)) => {
            let noted = match session_id {
                Some(id) => said.updated(
                    WorkerSnapshotView { session_id: Some(id), ..said.snapshot },
                ),
                None => said,
            };
            lemma_succeeds(run, noted.with_history(history), seq![]);
        },
        Err(error) => agent::failure_stops(run, said, error),
    }
}

/// A shell command that ends well completes its step, and one that does not ends the run.
proof fn lemma_command_ends(
    run: AgentRunView,
    rt: WorkerRuntimeView,
    result: Result<Seq<Seq<char>>, Seq<char>>,
)
    requires
        run.index < usize::MAX,
        rt.completed_steps < usize::MAX,
    ensures
        ({
            let t = run.command_done(rt, result);
            &&& t.run.workflow == run.workflow
            &&& result is Ok ==> t.action is StepDone && t.run.index == run.index + 1
                && t.rt.completed_steps == rt.completed_steps + 1
            &&& result is Err ==> t.action is Stop && t.rt.completed_steps == rt.completed_steps
                && t.rt.snapshot.status == WorkerStatus::Failed && t.rt.snapshot.current_step
                == Some(run.step_label())
        }),
{
    match result {
        Ok(lines) => lemma_succeeds(run, rt, lines),
        Err(error) => agent::failure_stops(run, rt, error),
    }
}

/// A step that succeeds is counted and leads to the next one; any other ends the run, with the
/// worker paused where the permission was denied and failed where anything else went wrong. The
/// worker still shows a step that failed while it ran.
pub proof fn steps_are_counted(run: AgentRunView, rt: WorkerRuntimeView, outcome: StepOutcome)
    requires
        run.index < run.workflow.steps.len() <= usize::MAX,
        rt.completed_steps < usize::MAX,
    ensures
        ({
            let t = run.after_step(rt, outcome);
            &&& t.run.workflow == run.workflow
            &&& outcome.succeeds(run.step()) ==> t.action is StepDone && t.run.index == run.index
                + 1 && t.rt.completed_steps == rt.completed_steps + 1
            &&& !outcome.succeeds(run.step()) ==> t.action is Stop && t.rt.completed_steps
                == rt.completed_steps && t.rt.snapshot.status == (if outcome.denies(run.step()) {
                WorkerStatus::Paused
            } else {
                WorkerStatus::Failed
            }) && t.rt.snapshot.current_step == (if outcome.permits(run.step()) {
                Some(run.step_label())
            } else {
                None
            })
        }),
{
    reveal(AgentRunView::after_step);
    let begun = run.begin_step(rt, false, outcome.request_id);
    lemma_begins(run, rt, outcome.request_id);
    if run.step().claude is Some {
        let asked = begun.run.asked(begun.rt, outcome.ask_error);
        if outcome.ask_error is None && outcome.decision is Some && outcome.decision->0 is Allow {
            let mode = outcome.decision->0->permission_mode;
            let tools = outcome.decision->0->allowed_tools;
            let answered = asked.run.answered(asked.rt, outcome.decision);
            lemma_permitted(asked.run, asked.rt, mode, tools);
            lemma_agent_ends(answered.run, answered.rt, outcome.log, outcome.session);
        }
    } else if run.step().command is Some {
        lemma_command_ends(begun.run, begun.rt, outcome.command);
    }
}

/// As long as its steps succeed, a run takes them once each and in order.
proof fn lemma_steps_in_order(
    run: AgentRunView,
    rt: WorkerRuntimeView,
    outcomes: spec_fn(int) -> StepOutcome,
    n: nat,
)
    requires
        run.index + n <= run.workflow.steps.len() <= usize::MAX,
        rt.completed_steps == run.index,
        forall|i: int|
            run.index <= i < run.index + n ==> (#[trigger] outcomes(i)).succeeds(
                run.workflow.steps[i],
            ),
    ensures
        ({
            let p = run.after_turns(rt, outcomes, n);
            &&& p.begun == places(run.index as int, n)
            &&& p.turn.goes_on()
            &&& p.turn.run.workflow == run.workflow
            &&& p.turn.run.index == run.index + n
            &&& p.turn.rt.completed_steps == run.index + n
        }),
    decreases n,
{
    if n == 0 {
        assert(run.after_turns(rt, outcomes, 0).begun =~= places(run.index as int, 0));
    } else {
        lemma_steps_in_order(run, rt, outcomes, (n - 1) as nat);
        let before = run.after_turns(rt, outcomes, (n - 1) as nat);
        let at = before.turn.run;
        steps_are_counted(at, before.turn.rt, outcomes(at.index as int));
        assert(run.after_turns(rt, outcomes, n).begun =~= places(run.index as int, n));
    }
}

/// A run that has ended begins no further step.
proof fn lemma_stays_stopped(
    run: AgentRunView,
    rt: WorkerRuntimeView,
    outcomes: spec_fn(int) -> StepOutcome,
    n: nat,
    more: nat,
)
    requires
        run.after_turns(rt, outcomes, n).turn.action is Stop,
    ensures
        run.after_turns(rt, outcomes, n + more) == run.after_turns(rt, outcomes, n),
    decreases more,
{
    if more > 0 {
        lemma_stays_stopped(run, rt, outcomes, n, (more - 1) as nat);
    }
}

/// A workflow whose steps all succeed is run from the first step that is not completed yet:
/// each step once, in order, up to the last; the run ends with the worker idle, at no step, and
/// every step completed, which is the last that is logged.
pub proof fn workflows_are_completed(
    run: AgentRunView,
    rt: WorkerRuntimeView,
    outcomes: spec_fn(int) -> StepOutcome,
    more: nat,
)
    requires
        0 < run.workflow.steps.len() <= usize::MAX,
        rt.completed_steps <= run.workflow.steps.len(),
        forall|i: int|
            rt.completed_steps <= i < run.workflow.steps.len() ==> (#[trigger] outcomes(
                i,
            )).succeeds(run.workflow.steps[i]),
    ensures
        ({
            let started = run.start(rt, false);
            let left = (run.workflow.steps.len() - rt.completed_steps) as nat;
            let p = started.run.after_turns(started.rt, outcomes, left + 1 + more);
            &&& p.begun == places(rt.completed_steps as int, left)
            &&& p.turn.action is Stop
            &&& p.turn.rt.snapshot.status == WorkerStatus::Idle
            &&& p.turn.rt.snapshot.current_step is None
            &&& p.turn.rt.logs.len() > 0
            &&& p.turn.rt.logs.last() == "Workflow '"@ + run.workflow.name + "' completed"@
            &&& p.turn.rt.completed_steps == run.workflow.steps.len()
        }),
{
    let started = run.start(rt, false);
    let left = (run.workflow.steps.len() - rt.completed_steps) as nat;
    lemma_steps_in_order(started.run, started.rt, outcomes, left);
    reveal(AgentRunView::after_step);
    lemma_stays_stopped(started.run, started.rt, outcomes, left + 1, more);
}

/// A workflow with a step that does not succeed is run from the first step that is not
/// completed yet: each step once, in order, up to and including the first that does not succeed;
/// no later step is begun, and that step is not counted as completed. The worker is paused where
/// a permission was denied and failed where anything else went wrong; it still shows the step
/// where that failed while it ran.
pub proof fn workflows_stop_at_failure(
    run: AgentRunView,
    rt: WorkerRuntimeView,
    outcomes: spec_fn(int) -> StepOutcome,
    failing: int,
    more: nat,
)
    requires
        rt.completed_steps <= failing < run.workflow.steps.len() <= usize::MAX,
        forall|i: int|
            rt.completed_steps <= i < failing ==> (#[trigger] outcomes(i)).succeeds(
                run.workflow.steps[i],
            ),
        !outcomes(failing).succeeds(run.workflow.steps[failing]),
    ensures
        ({
            let started = run.start(rt, false);
            let count = (failing - rt.completed_steps + 1) as nat;
            let p = started.run.after_turns(started.rt, outcomes, count + more);
            &&& p.begun == places(rt.completed_steps as int, count)
            &&& p.turn.action is Stop
            &&& p.turn.rt.completed_steps == failing
            &&& p.turn.rt.snapshot.status == (if outcomes(failing).denies(
                run.workflow.steps[failing],
            ) {
                WorkerStatus::Paused
            } else {
                WorkerStatus::Failed
            })
            &&& p.turn.rt.snapshot.current_step == (if outcomes(failing).permits(
                run.workflow.steps[failing],
            ) {
                Some(AgentRunView { index: failing as usize, ..run }.step_label())
            } else {
                None
            })
        }),
{
    let started = run.start(rt, false);
    let count = (failing - rt.completed_steps) as nat;
    lemma_steps_in_order(started.run, started.rt, outcomes, count);
    let before = started.run.after_turns(started.rt, outcomes, count);
    steps_are_counted(before.turn.run, before.turn.rt, outcomes(failing));
    let p = started.run.after_turns(started.rt, outcomes, count + 1);
    assert(p.begun =~= places(rt.completed_steps as int, count + 1));
    lemma_stays_stopped(started.run, started.rt, outcomes, count + 1, more);
}

} // verus!
