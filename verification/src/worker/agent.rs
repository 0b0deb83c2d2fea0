//! The run of an agent through a workflow, as a machine that is told what happened and says
//! what is to be done next.
use crate::config::{ClaudeStep, ClaudeStepView, Workflow, WorkflowStepView, WorkflowView};
use crate::log_parser;
use crate::model::{extend_with, Duplicate};
use crate::product::{Product, ProductView};
use crate::state::{SessionHistory, SessionHistoryView};
use crate::text::{self, cat2, cat3, cat4, cat5, join, lines_of, replace, same, u64_text, usize_text};
use crate::ui::modals::{self, describe_allowed_tools};
use crate::worker::claude::{self, mode_or_bypass};
use crate::worker::runtime::{WorkerRuntime, WorkerRuntimeView};
use crate::worker::{
    PermissionDecision, PermissionDecisionView, PermissionRequest, PermissionRequestView,
    WorkerEvent, WorkerEventView, WorkerSnapshot, WorkerSnapshotView, WorkerStatus,
};
use vstd::prelude::*;

verus! {

/// Where a run stands.
#[derive(Debug, Clone, Copy, PartialEq, Eq, Structural)]
pub enum AgentPhase {
    /// Before the first step.
    Starting,
    /// Between two steps.
    Ready,
    /// A permission request is being sent.
    Asking,
    /// A permission request waits for its answer.
    Waiting,
    /// The agent is running.
    Prompting,
    /// A shell command is running.
    Executing,
    /// The run has ended.
    Stopped,
}

/// One run of an agent through a workflow: the step it is at, and the worker as it was when that step began.
#[derive(Debug)]
pub struct AgentRun {
    pub product: Product,
    pub workflow: Workflow,
    pub index: usize,
    pub info: WorkerSnapshot,
    pub request_id: u64,
    pub phase: AgentPhase,
}

/// What a [`AgentRun`] holds.
#[verifier::ext_equal]
pub struct AgentRunView {
    pub product: ProductView,
    pub workflow: WorkflowView,
    pub index: usize,
    pub info: WorkerSnapshotView,
    pub request_id: u64,
    pub phase: AgentPhase,
}

impl DeepView for AgentRun {
    type V = AgentRunView;

    open spec fn deep_view(&self) -> AgentRunView {
        AgentRunView {
            product: self.product.deep_view(),
            workflow: self.workflow.deep_view(),
            index: self.index,
            info: self.info.deep_view(),
            request_id: self.request_id,
            phase: self.phase,
        }
    }
}

/// What is to be done outside before the run can go on.
#[derive(Debug)]
pub enum AgentAction {
    /// Nothing: the run has ended.
    Stop,
    /// Begin the next step, unless the run has been cancelled.
    Proceed,
    /// Send a permission request to the manager.
    AskPermission { request: PermissionRequest },
    /// Wait for the answer to the request.
    AwaitPermission,
    /// Run the agent.
    RunClaude { step: ClaudeStep, prompt: String, session_id: Option<String> },
    /// Run a shell command.
    RunCommand { command: String },
    /// Save the worker, rest for a moment and begin the next step.
    StepDone,
}

/// What a [`AgentAction`] holds.
#[verifier::ext_equal]
pub enum AgentActionView {
    Stop,
    Proceed,
    AskPermission { request: PermissionRequestView },
    AwaitPermission,
    RunClaude { step: ClaudeStepView, prompt: Seq<char>, session_id: Option<Seq<char>> },
    RunCommand { command: Seq<char> },
    StepDone,
}

impl DeepView for AgentAction {
    type V = AgentActionView;

    open spec fn deep_view(&self) -> AgentActionView {
        match self {
            AgentAction::Stop => AgentActionView::Stop,
            AgentAction::Proceed => AgentActionView::Proceed,
            AgentAction::AskPermission { request } => AgentActionView::AskPermission {
                request: request.deep_view(),
            },
            AgentAction::AwaitPermission => AgentActionView::AwaitPermission,
            AgentAction::RunClaude { step, prompt, session_id } => AgentActionView::RunClaude {
                step: step.deep_view(),
                prompt: prompt@,
                session_id: session_id.deep_view(),
            },
            AgentAction::RunCommand { command } => AgentActionView::RunCommand {
                command: command@,
            },
            AgentAction::StepDone => AgentActionView::StepDone,
        }
    }
}

/// A run, its worker and what is to be done next.
#[verifier::ext_equal]
pub struct Turn {
    pub run: AgentRunView,
    pub rt: WorkerRuntimeView,
    pub action: AgentActionView,
}

impl WorkerRuntimeView {
    /// With another status, event and step, reported.
    pub open spec fn at(
        self,
        status: WorkerStatus,
        last_event: Seq<char>,
        current_step: Option<Seq<char>>,
    ) -> WorkerRuntimeView {
        self.updated(WorkerSnapshotView { status, last_event, current_step, ..self.snapshot })
    }

    /// With another event, reported.
    pub open spec fn noting(self, last_event: Seq<char>) -> WorkerRuntimeView {
        self.updated(WorkerSnapshotView { last_event, ..self.snapshot })
    }
}

impl WorkerRuntime {
    fn set_status(&mut self, status: WorkerStatus, last_event: String, current_step: Option<String>)
        ensures
            final(self).deep_view() == old(self).deep_view().at(
                status,
                last_event@,
                current_step.deep_view(),
            ),
    {
        self.snapshot.status = status;
        self.snapshot.last_event = last_event;
        self.snapshot.current_step = current_step;
        self.report_update();
    }

    fn set_event(&mut self, last_event: String)
        ensures
            final(self).deep_view() == old(self).deep_view().noting(last_event@),
    {
        self.snapshot.last_event = last_event;
        self.report_update();
    }
}

impl AgentRunView {
    /// Whether the phase fits the step: permissions and agents belong to steps that have an
    /// agent, shell commands to steps that have none.
    pub open spec fn wf(self) -> bool {
        match self.phase {
            AgentPhase::Starting | AgentPhase::Ready | AgentPhase::Stopped => true,
            AgentPhase::Asking | AgentPhase::Waiting | AgentPhase::Prompting => self.index
                < self.workflow.steps.len() && self.step().claude is Some,
            AgentPhase::Executing => self.index < self.workflow.steps.len()
                && self.step().claude is None && self.step().command is Some,
        }
    }

    /// The current step.
    pub open spec fn step(self) -> WorkflowStepView {
        self.workflow.steps[self.index as int]
    }

    /// The agent of the current step.
    pub open spec fn claude(self) -> ClaudeStepView {
        self.step().claude->0
    }

    /// The text of the current step: its number, how many there are, and its name.
    pub open spec fn step_label(self) -> Seq<char> {
        text::decimal((self.index + 1) as nat) + "/"@ + text::decimal(
            self.workflow.steps.len(),
        ) + ": "@ + self.step().name
    }

    /// The description of the current step.
    pub open spec fn step_description(self) -> Seq<char> {
        match self.step().description {
            Some(d) => d,
            None => "ステップを実行"@,
        }
    }

    /// In another phase.
    pub open spec fn entering(self, phase: AgentPhase) -> AgentRunView {
        AgentRunView { phase, ..self }
    }

    /// The permission request of the current step.
    pub open spec fn request(self) -> PermissionRequestView {
        PermissionRequestView {
            request_id: self.request_id,
            step_name: self.step().name,
            description: self.step().description,
            permission_mode: self.claude().permission_mode,
            allowed_tools: self.claude().allowed_tools,
        }
    }

    /// The run has ended.
    pub open spec fn stopped(self, rt: WorkerRuntimeView) -> Turn {
        Turn { run: self.entering(AgentPhase::Stopped), rt, action: AgentActionView::Stop }
    }

    /// The start of a run: at the first step that is not completed yet.
    pub open spec fn start(self, rt: WorkerRuntimeView, cancelled: bool) -> Turn {
        if self.workflow.steps.len() == 0 {
            self.stopped(rt.at(WorkerStatus::Idle, "No workflow steps defined"@, None))
        } else {
            let begun = if rt.completed_steps == 0 {
                rt.at(
                    WorkerStatus::Running,
                    "ワークフロー '"@ + self.workflow.name + "' を開始"@,
                    None,
                )
            } else {
                rt
            };
            let run = AgentRunView { index: rt.completed_steps, ..self };
            if cancelled {
                run.stopped(begun)
            } else {
                Turn {
                    run: run.entering(AgentPhase::Ready),
                    rt: begun,
                    action: AgentActionView::Proceed,
                }
            }
        }
    }

    /// The beginning of the next step, or the end of the run.
    pub open spec fn begin_step(
        self,
        rt: WorkerRuntimeView,
        cancelled: bool,
        request_id: u64,
    ) -> Turn {
        if self.index >= self.workflow.steps.len() {
            self.stopped(
                rt.at(
                    WorkerStatus::Idle,
                    "ワークフロー '"@ + self.workflow.name + "' が完了"@,
                    None,
                ).logged("Workflow '"@ + self.workflow.name + "' completed"@),
            )
        } else if cancelled {
            self.stopped(rt.at(WorkerStatus::Paused, "ワーカーがキャンセルされました"@, None))
        } else {
            let announced = rt.at(
                WorkerStatus::Running,
                self.step_description(),
                Some(self.step_label()),
            );
            let logged = announced.logged(
                log_parser::step_start_line(self.index as nat, self.step().name),
            ).logged("["@ + self.step().name + "] "@ + self.step_description());
            let run = AgentRunView { info: announced.snapshot, ..self };
            match (self.step().claude, self.step().command) {
                (Some(_), _) => {
                    let asking = AgentRunView { request_id, ..run };
                    Turn {
                        run: asking.entering(AgentPhase::Asking),
                        rt: logged,
                        action: AgentActionView::AskPermission { request: asking.request() },
                    }
                },
                (None, Some(command)) => Turn {
                    run: run.entering(AgentPhase::Executing),
                    rt: logged.logged("$ "@ + command),
                    action: AgentActionView::RunCommand { command },
                },
                (None, None) => run.succeed(logged, seq!["(no-op step)"@]),
            }
        }
    }

    /// The end of a step that succeeded, with the lines of its result.
    pub open spec fn succeed(self, rt: WorkerRuntimeView, lines: Seq<Seq<char>>) -> Turn {
        let logged = rt.logged("[RESULT_START]"@).logged_all(lines).logged("[RESULT_END]"@).logged(
            "[STEP_END:Success]"@,
        );
        Turn {
            run: AgentRunView { index: (self.index + 1) as usize, ..self }.entering(
                AgentPhase::Ready,
            ),
            rt: WorkerRuntimeView {
                completed_steps: vstd::wrapping::usize_specs::wrapping_add(
                    logged.completed_steps,
                    1,
                ),
                ..logged
            },
            action: AgentActionView::StepDone,
        }
    }

    /// The end of a step that failed.
    pub open spec fn fail(self, rt: WorkerRuntimeView, error: Seq<char>) -> Turn {
        self.stopped(
            rt.logged("[RESULT_START]"@).logged("Error: "@ + error).logged(
                "[RESULT_END]"@,
            ).logged("[STEP_END:Failed]"@).at(
                WorkerStatus::Failed,
                "Command failed: "@ + error,
                Some(self.step_label()),
            ).reporting(WorkerEventView::Error { id: Some(rt.snapshot.id), message: error }),
        )
    }

    /// The permission request has been sent, or could not be.
    pub open spec fn asked(self, rt: WorkerRuntimeView, error: Option<Seq<char>>) -> Turn {
        match error {
            Some(e) => self.stopped(
                rt.logged("権限要求をエンキューできませんでした: "@ + e).at(
                    WorkerStatus::Failed,
                    "権限要求の送信に失敗しました"@,
                    None,
                ),
            ),
            None => Turn {
                run: self.entering(AgentPhase::Waiting),
                rt: rt.noting(
                    "ステップ '"@ + self.step().name + "' の権限確認を待機中"@,
                ).logged(
                    "権限確認待ち (request #"@ + text::decimal(self.request_id as nat)
                        + ", tools: "@ + modals::tools_text(self.claude().allowed_tools) + ")"@,
                ),
                action: AgentActionView::AwaitPermission,
            },
        }
    }

    /// The prompt of the current step.
    pub open spec fn prompt(self) -> Seq<char> {
        prompt_for(self.claude().prompt, self.info)
    }

    /// The agent of the current step with the permissions that were granted.
    pub open spec fn granted(
        self,
        mode: Option<Seq<char>>,
        tools: Option<Seq<Seq<char>>>,
    ) -> ClaudeStepView {
        ClaudeStepView {
            permission_mode: match mode {
                Some(m) => Some(m),
                None => self.claude().permission_mode,
            },
            allowed_tools: match tools {
                Some(t) => Some(t),
                None => self.claude().allowed_tools,
            },
            ..self.claude()
        }
    }

    /// The permission request has been answered; `None` where the answer got lost.
    pub open spec fn answered(
        self,
        rt: WorkerRuntimeView,
        decision: Option<PermissionDecisionView>,
    ) -> Turn {
        match decision {
            None => self.stopped(
                rt.logged("権限確認中に内部エラーが発生したため中断します"@).at(
                    WorkerStatus::Failed,
                    "権限確認中にエラーが発生"@,
                    None,
                ),
            ),
            Some(PermissionDecisionView::Deny) => self.stopped(
                rt.logged("権限が拒否されました。ステップを中断します"@).at(
                    WorkerStatus::Paused,
                    "ステップ '"@ + self.step().name + "' の権限が拒否されました"@,
                    None,
                ),
            ),
            Some(PermissionDecisionView::Allow { permission_mode, allowed_tools }) => {
                let step = self.granted(permission_mode, allowed_tools);
                let described = rt.logged("権限が承認されました"@).logged_all(
                    prompt_section(self.prompt()),
                ).logged_all(
                    command_section(
                        self.product.name,
                        self.claude(),
                        step,
                        self.info.session_id is Some,
                    ),
                );
                Turn {
                    run: self.entering(AgentPhase::Prompting),
                    rt: described.noting(self.product.name + "を実行中... ⏳"@).logged_all(
                        waiting_section(self.product.name),
                    ),
                    action: AgentActionView::RunClaude {
                        step,
                        prompt: self.prompt(),
                        session_id: self.info.session_id,
                    },
                }
            },
        }
    }

    /// The agent has ended: `log` is what it had to say.
    pub open spec fn claude_done(
        self,
        rt: WorkerRuntimeView,
        log: Seq<Seq<char>>,
        result: Result<(Option<Seq<char>>, SessionHistoryView), Seq<char>>,
    ) -> Turn {
        let said = rt.logged_all(log).logged_all(done_section(self.product.name));
        match result {
            Ok((session_id, history)) => {
                let noted = match session_id {
                    Some(id) => said.updated(
                        WorkerSnapshotView { session_id: Some(id), ..said.snapshot },
                    ),
                    None => said,
                };
                self.succeed(noted.with_history(history), seq![])
            },
            Err(error) => self.fail(said, error),
        }
    }

    /// The shell command has ended.
    pub open spec fn command_done(
        self,
        rt: WorkerRuntimeView,
        result: Result<Seq<Seq<char>>, Seq<char>>,
    ) -> Turn {
        match result {
            Ok(lines) => self.succeed(rt, lines),
            Err(error) => self.fail(rt, error),
        }
    }
}

/// A prompt with what it says of the worker filled in.
pub open spec fn prompt_for(template: Seq<char>, worker: WorkerSnapshotView) -> Seq<char> {
    let issue = match worker.issue {
        Some(i) => i,
        None => "(no issue)"@,
    };
    text::replaced(
        text::replaced(
            text::replaced(
                text::replaced(template, "{{issue}}"@, issue),
                "{{worker}}"@,
                worker.name,
            ),
            "{{branch}}"@,
            worker.branch,
        ),
        "{{worktree}}"@,
        worker.worktree,
    )
}

/// The lines that show a prompt.
pub open spec fn prompt_section(prompt: Seq<char>) -> Seq<Seq<char>> {
    seq!["[PROMPT_START]"@, "─── Prompt ───"@] + text::lines(prompt) + seq!["[PROMPT_END]"@]
}

/// The text of a permission mode.
pub open spec fn mode_text(mode: Seq<char>) -> Seq<char> {
    if mode == "plan"@ {
        "プランモード (plan)"@
    } else if mode == "acceptEdits"@ {
        "編集承認モード (acceptEdits)"@
    } else if mode == "bypassPermissions"@ {
        "制限なしモード (bypassPermissions)"@
    } else {
        mode
    }
}

/// The lines that show how the agent is run: the mode is that of the step as it is
/// configured, the rest as it was granted.
pub open spec fn command_section(
    name: Seq<char>,
    configured: ClaudeStepView,
    granted: ClaudeStepView,
    resumes: bool,
) -> Seq<Seq<char>> {
    seq![
        "─── "@ + name + " コマンド ───"@,
        "Permission Mode: "@ + mode_text(claude::effective_mode(configured.permission_mode)),
        "Model: "@ + (match granted.model {
            Some(model) => model,
            None => "デフォルト"@,
        }),
        "Allowed Tools: "@ + (match granted.allowed_tools {
            Some(tools) => if tools.len() == 0 {
                "なし"@
            } else {
                text::joined(tools, ", "@)
            },
            None => "全て"@,
        }),
        "Session: "@ + (if resumes {
            "継続"@
        } else {
            "新規"@
        }),
    ] + (match granted.extra_args {
        Some(extra) => if extra.len() == 0 {
            seq![]
        } else {
            seq!["Extra Args: "@ + text::joined(extra, " "@)]
        },
        None => seq![],
    })
}

/// The line that sets a notice off.
pub open spec fn bar() -> Seq<char> {
    "━━━━━━━━━━━━━━━━━━━━━━━━━━━━━━━━━━━━━━━━"@
}

/// The notice that the agent is running.
pub open spec fn waiting_section(name: Seq<char>) -> Seq<Seq<char>> {
    seq![
        ""@,
        bar(),
        "⏳ "@ + name + "実行中..."@,
        "   出力は実行完了後に表示されます"@,
        bar(),
        ""@,
    ]
}

/// The notice that the agent has ended.
pub open spec fn done_section(name: Seq<char>) -> Seq<Seq<char>> {
    seq![""@, bar(), "✅ "@ + name + "実行完了"@, bar(), ""@]
}

/// Returns a prompt with what it says of the worker filled in.
pub fn render_prompt(template: &str, worker: &WorkerSnapshot) -> (r: String)
    ensures
        r@ == prompt_for(template@, worker.deep_view()),
{
    proof {
        reveal_strlit("{{issue}}");
        reveal_strlit("{{worker}}");
        reveal_strlit("{{branch}}");
        reveal_strlit("{{worktree}}");
    }
    let issue = match &worker.issue {
        Some(i) => i.as_str(),
        None => "(no issue)",
    };
    let a = replace(template, "{{issue}}", issue);
    let b = replace(a.as_str(), "{{worker}}", worker.name.as_str());
    let c = replace(b.as_str(), "{{branch}}", worker.branch.as_str());
    replace(c.as_str(), "{{worktree}}", worker.worktree.as_str())
}

/// Returns the text of a permission mode.
fn describe_mode(mode: &str) -> (r: String)
    ensures
        r@ == mode_text(mode@),
{
    if same(mode, "plan") {
        "プランモード (plan)".to_owned()
    } else if same(mode, "acceptEdits") {
        "編集承認モード (acceptEdits)".to_owned()
    } else if same(mode, "bypassPermissions") {
        "制限なしモード (bypassPermissions)".to_owned()
    } else {
        mode.to_owned()
    }
}

fn prompt_lines(prompt: &str) -> (r: Vec<String>)
    ensures
        r.deep_view() == prompt_section(prompt@),
{
    let mut out = vec!["[PROMPT_START]".to_owned(), "─── Prompt ───".to_owned()];
    assert(out.deep_view() =~= seq!["[PROMPT_START]"@, "─── Prompt ───"@]);
    extend_with(&mut out, &lines_of(prompt));
    let ghost before = out.deep_view();
    out.push("[PROMPT_END]".to_owned());
    assert(out.deep_view() =~= before + seq!["[PROMPT_END]"@]);
    out
}

fn command_lines(
    name: &str,
    configured: &ClaudeStep,
    granted: &ClaudeStep,
    resumes: bool,
) -> (r: Vec<String>)
    ensures
        r.deep_view() == command_section(
            name@,
            configured.deep_view(),
            granted.deep_view(),
            resumes,
        ),
{
    let mode = describe_mode(mode_or_bypass(&configured.permission_mode));
    let model = match &granted.model {
        Some(model) => model.as_str(),
        None => "デフォルト",
    };
    let tools = match &granted.allowed_tools {
        Some(tools) => {
            if tools.len() == 0 {
                "なし".to_owned()
            } else {
                join(tools, ", ")
            }
        },
        None => "全て".to_owned(),
    };
    let session = if resumes {
        "継続"
    } else {
        "新規"
    };
    let mut out = vec![
        cat3("─── ", name, " コマンド ───"),
        cat2("Permission Mode: ", mode.as_str()),
        cat2("Model: ", model),
        cat2("Allowed Tools: ", tools.as_str()),
        cat2("Session: ", session),
    ];
    let ghost before = out.deep_view();
    if let Some(extra) = &granted.extra_args {
        if extra.len() > 0 {
            out.push(cat2("Extra Args: ", join(extra, " ").as_str()));
        }
    }
    assert(out.deep_view() =~= command_section(
        name@,
        configured.deep_view(),
        granted.deep_view(),
        resumes,
    ));
    out
}

fn waiting_lines(name: &str) -> (r: Vec<String>)
    ensures
        r.deep_view() == waiting_section(name@),
{
    let out = vec![
        "".to_owned(),
        "━━━━━━━━━━━━━━━━━━━━━━━━━━━━━━━━━━━━━━━━".to_owned(),
        cat3("⏳ ", name, "実行中..."),
        "   出力は実行完了後に表示されます".to_owned(),
        "━━━━━━━━━━━━━━━━━━━━━━━━━━━━━━━━━━━━━━━━".to_owned(),
        "".to_owned(),
    ];
    assert(out.deep_view() =~= waiting_section(name@));
    out
}

fn done_lines(name: &str) -> (r: Vec<String>)
    ensures
        r.deep_view() == done_section(name@),
{
    let out = vec![
        "".to_owned(),
        "━━━━━━━━━━━━━━━━━━━━━━━━━━━━━━━━━━━━━━━━".to_owned(),
        cat3("✅ ", name, "実行完了"),
        "━━━━━━━━━━━━━━━━━━━━━━━━━━━━━━━━━━━━━━━━".to_owned(),
        "".to_owned(),
    ];
    assert(out.deep_view() =~= done_section(name@));
    out
}

impl AgentRun {
    /// Returns a run of the workflow of a worker that has not started.
    pub fn new(rt: &WorkerRuntime, product: &Product) -> (r: Self)
        ensures
            r.deep_view() == (AgentRunView {
                product: product.deep_view(),
                workflow: rt.deep_view().workflow,
                index: 0,
                info: rt.deep_view().snapshot,
                request_id: 0,
                phase: AgentPhase::Starting,
            }),
            r.deep_view().wf(),
    {
        AgentRun {
            product: product.clone(),
            workflow: rt.workflow.clone(),
            index: 0,
            info: rt.snapshot.clone(),
            request_id: 0,
            phase: AgentPhase::Starting,
        }
    }

    fn stop(&mut self) -> (action: AgentAction)
        ensures
            final(self).deep_view() == old(self).deep_view().entering(AgentPhase::Stopped),
            action.deep_view() == AgentActionView::Stop,
    {
        self.phase = AgentPhase::Stopped;
        AgentAction::Stop
    }

    /// Starts the run.
    pub fn start(&mut self, rt: &mut WorkerRuntime, cancelled: bool) -> (action: AgentAction)
        requires
            old(self).phase == AgentPhase::Starting,
        ensures
            (Turn {
                run: final(self).deep_view(),
                rt: final(rt).deep_view(),
                action: action.deep_view(),
            }) == old(self).deep_view().start(old(rt).deep_view(), cancelled),
            final(self).deep_view().wf(),
    {
        if self.workflow.steps.len() == 0 {
            rt.set_status(WorkerStatus::Idle, "No workflow steps defined".to_owned(), None);
            return self.stop();
        }
        if rt.completed_steps == 0 {
            rt.set_status(
                WorkerStatus::Running,
                cat3("ワークフロー '", self.workflow.name.as_str(), "' を開始"),
                None,
            );
        }
        self.index = rt.completed_steps;
        if cancelled {
            return self.stop();
        }
        self.phase = AgentPhase::Ready;
        AgentAction::Proceed
    }

    fn label(&self) -> (r: String)
        requires
            self.index < self.workflow.steps.len(),
        ensures
            r@ == self.deep_view().step_label(),
    {
        let number: usize = self.index + 1;
        cat5(
            usize_text(number).as_str(),
            "/",
            usize_text(self.workflow.steps.len()).as_str(),
            ": ",
            self.workflow.steps[self.index].name.as_str(),
        )
    }

    /// Begins the next step, or ends the run; a permission request gets the given number.
    pub fn begin_step(
        &mut self,
        rt: &mut WorkerRuntime,
        cancelled: bool,
        request_id: u64,
    ) -> (action: AgentAction)
        requires
            old(self).phase == AgentPhase::Ready,
        ensures
            (Turn {
                run: final(self).deep_view(),
                rt: final(rt).deep_view(),
                action: action.deep_view(),
            }) == old(self).deep_view().begin_step(old(rt).deep_view(), cancelled, request_id),
            final(self).deep_view().wf(),
    {
        if self.index >= self.workflow.steps.len() {
            let name = self.workflow.name.as_str();
            rt.set_status(WorkerStatus::Idle, cat3("ワークフロー '", name, "' が完了"), None);
            rt.send_log(cat3("Workflow '", name, "' completed").as_str());
            return self.stop();
        }
        if cancelled {
            rt.set_status(
                WorkerStatus::Paused,
                "ワーカーがキャンセルされました".to_owned(),
                None,
            );
            return self.stop();
        }
        let step = self.workflow.steps[self.index].clone();
        let description = match &step.description {
            Some(d) => d.clone(),
            None => "ステップを実行".to_owned(),
        };
        rt.set_status(WorkerStatus::Running, description.clone(), Some(self.label()));
        self.info = rt.snapshot.clone();
        rt.send_log(
            cat5(
                "[STEP_START:",
                usize_text(self.index).as_str(),
                ":",
                step.name.as_str(),
                "]",
            ).as_str(),
        );
        rt.send_log(cat4("[", step.name.as_str(), "] ", description.as_str()).as_str());
        if let Some(claude) = &step.claude {
            self.request_id = request_id;
            self.phase = AgentPhase::Asking;
            let request = PermissionRequest {
                request_id,
                step_name: step.name.clone(),
                description: step.description.duplicate(),
                permission_mode: claude.permission_mode.duplicate(),
                allowed_tools: claude.allowed_tools.duplicate(),
            };
            return AgentAction::AskPermission { request };
        }
        if let Some(command) = &step.command {
            self.phase = AgentPhase::Executing;
            rt.send_log(cat2("$ ", command.as_str()).as_str());
            return AgentAction::RunCommand { command: command.clone() };
        }
        let lines = vec!["(no-op step)".to_owned()];
        assert(lines.deep_view() =~= seq!["(no-op step)"@]);
        self.succeed(rt, &lines)
    }

    fn succeed(&mut self, rt: &mut WorkerRuntime, lines: &Vec<String>) -> (action: AgentAction)
        requires
            old(self).index < old(self).workflow.steps.len(),
        ensures
            (Turn {
                run: final(self).deep_view(),
                rt: final(rt).deep_view(),
                action: action.deep_view(),
            }) == old(self).deep_view().succeed(old(rt).deep_view(), lines.deep_view()),
            final(self).deep_view().wf(),
    {
        rt.send_log("[RESULT_START]");
        rt.send_logs(lines);
        rt.send_log("[RESULT_END]");
        rt.send_log("[STEP_END:Success]");
        rt.completed_steps = rt.completed_steps.wrapping_add(1);
        let count: usize = self.workflow.steps.len();
        self.index = self.index + 1;
        self.phase = AgentPhase::Ready;
        AgentAction::StepDone
    }

    fn fail(&mut self, rt: &mut WorkerRuntime, error: &str) -> (action: AgentAction)
        requires
            old(self).index < old(self).workflow.steps.len(),
        ensures
            (Turn {
                run: final(self).deep_view(),
                rt: final(rt).deep_view(),
                action: action.deep_view(),
            }) == old(self).deep_view().fail(old(rt).deep_view(), error@),
            final(self).deep_view().wf(),
    {
        rt.send_log("[RESULT_START]");
        rt.send_log(cat2("Error: ", error).as_str());
        rt.send_log("[RESULT_END]");
        rt.send_log("[STEP_END:Failed]");
        rt.set_status(WorkerStatus::Failed, cat2("Command failed: ", error), Some(self.label()));
        let id = rt.snapshot.id;
        rt.report(WorkerEvent::Error { id: Some(id), message: error.to_owned() });
        self.stop()
    }

    /// Takes in that the permission request has been sent, or why it could not be.
    pub fn asked(&mut self, rt: &mut WorkerRuntime, error: Option<String>) -> (action: AgentAction)
        requires
            old(self).phase == AgentPhase::Asking,
            old(self).deep_view().wf(),
        ensures
            (Turn {
                run: final(self).deep_view(),
                rt: final(rt).deep_view(),
                action: action.deep_view(),
            }) == old(self).deep_view().asked(old(rt).deep_view(), error.deep_view()),
            final(self).deep_view().wf(),
    {
        if let Some(e) = error {
            rt.send_log(cat2("権限要求をエンキューできませんでした: ", e.as_str()).as_str());
            rt.set_status(
                WorkerStatus::Failed,
                "権限要求の送信に失敗しました".to_owned(),
                None,
            );
            return self.stop();
        }
        let step = self.workflow.steps[self.index].clone();
        rt.set_event(cat3("ステップ '", step.name.as_str(), "' の権限確認を待機中"));
        let tools = match &step.claude {
            Some(claude) => describe_allowed_tools(&claude.allowed_tools),
            None => String::new(),
        };
        rt.send_log(
            cat5(
                "権限確認待ち (request #",
                u64_text(self.request_id).as_str(),
                ", tools: ",
                tools.as_str(),
                ")",
            ).as_str(),
        );
        self.phase = AgentPhase::Waiting;
        AgentAction::AwaitPermission
    }

    /// Takes in the answer to the permission request; `None` where it got lost.
    pub fn answered(&mut self, rt: &mut WorkerRuntime, decision: Option<PermissionDecision>) -> (
        action: AgentAction)
        requires
            old(self).phase == AgentPhase::Waiting,
            old(self).deep_view().wf(),
        ensures
            (Turn {
                run: final(self).deep_view(),
                rt: final(rt).deep_view(),
                action: action.deep_view(),
            }) == old(self).deep_view().answered(old(rt).deep_view(), decision.deep_view()),
            final(self).deep_view().wf(),
    {
        match decision {
            None => {
                rt.send_log("権限確認中に内部エラーが発生したため中断します");
                rt.set_status(WorkerStatus::Failed, "権限確認中にエラーが発生".to_owned(), None);
                self.stop()
            },
            Some(PermissionDecision::Deny) => {
                rt.send_log("権限が拒否されました。ステップを中断します");
                let name = self.workflow.steps[self.index].name.as_str();
                rt.set_status(
                    WorkerStatus::Paused,
                    cat3("ステップ '", name, "' の権限が拒否されました"),
                    None,
                );
                self.stop()
            },
            Some(PermissionDecision::Allow { permission_mode, allowed_tools }) => {
                let claude = match &self.workflow.steps[self.index].claude {
                    Some(claude) => claude.clone(),
                    None => {
                        return self.stop();
                    },
                };
                self.allowed(rt, claude, permission_mode, allowed_tools)
            },
        }
    }

    fn allowed(
        &mut self,
        rt: &mut WorkerRuntime,
        claude: ClaudeStep,
        permission_mode: Option<String>,
        allowed_tools: Option<Vec<String>>,
    ) -> (action: AgentAction)
        requires
            old(self).phase == AgentPhase::Waiting,
            old(self).deep_view().wf(),
            claude.deep_view() == old(self).deep_view().claude(),
        ensures
            (Turn {
                run: final(self).deep_view(),
                rt: final(rt).deep_view(),
                action: action.deep_view(),
            }) == old(self).deep_view().answered(
                old(rt).deep_view(),
                Some(
                    PermissionDecisionView::Allow {
                        permission_mode: permission_mode.deep_view(),
                        allowed_tools: allowed_tools.deep_view(),
                    },
                ),
            ),
            final(self).deep_view().wf(),
    {
        rt.send_log("権限が承認されました");
        let prompt = render_prompt(claude.prompt.as_str(), &self.info);
        rt.send_logs(&prompt_lines(prompt.as_str()));
        let mut granted = claude.clone();
        if let Some(mode) = permission_mode {
            granted.permission_mode = Some(mode);
        }
        if let Some(tools) = allowed_tools {
            granted.allowed_tools = Some(tools);
        }
        let resumes = match &self.info.session_id {
            Some(_) => true,
            None => false,
        };
        let name = self.product.name.as_str();
        rt.send_logs(&command_lines(name, &claude, &granted, resumes));
        rt.set_event(cat2(name, "を実行中... ⏳"));
        rt.send_logs(&waiting_lines(name));
        self.phase = AgentPhase::Prompting;
        AgentAction::RunClaude {
            step: granted,
            prompt,
            session_id: self.info.session_id.duplicate(),
        }
    }

    /// Takes in that the agent has ended: what it had to say, and what came of it.
    pub fn claude_done(
        &mut self,
        rt: &mut WorkerRuntime,
        log: &Vec<String>,
        result: Result<(Option<String>, SessionHistory), String>,
    ) -> (action: AgentAction)
        requires
            old(self).phase == AgentPhase::Prompting,
            old(self).deep_view().wf(),
        ensures
            (Turn {
                run: final(self).deep_view(),
                rt: final(rt).deep_view(),
                action: action.deep_view(),
            }) == old(self).deep_view().claude_done(
                old(rt).deep_view(),
                log.deep_view(),
                match result {
                    Ok((session_id, history)) => Ok(
                        (session_id.deep_view(), history.deep_view()),
                    ),
                    Err(error) => Err(error@),
                },
            ),
            final(self).deep_view().wf(),
    {
        rt.send_logs(log);
        rt.send_logs(&done_lines(self.product.name.as_str()));
        match result {
            Ok((session_id, history)) => {
                if let Some(id) = session_id {
                    rt.snapshot.session_id = Some(id);
                    rt.report_update();
                }
                rt.add_session_history(history);
                let nothing: Vec<String> = Vec::new();
                assert(nothing.deep_view() =~= seq![]);
                self.succeed(rt, &nothing)
            },
            Err(error) => self.fail(rt, error.as_str()),
        }
    }

    /// Takes in that the shell command has ended.
    pub fn command_done(
        &mut self,
        rt: &mut WorkerRuntime,
        result: Result<Vec<String>, String>,
    ) -> (action: AgentAction)
        requires
            old(self).phase == AgentPhase::Executing,
            old(self).deep_view().wf(),
        ensures
            (Turn {
                run: final(self).deep_view(),
                rt: final(rt).deep_view(),
                action: action.deep_view(),
            }) == old(self).deep_view().command_done(
                old(rt).deep_view(),
                match result {
                    Ok(lines) => Ok(lines.deep_view()),
                    Err(error) => Err(error@),
                },
            ),
            final(self).deep_view().wf(),
    {
        match result {
            Ok(lines) => self.succeed(rt, &lines),
            Err(error) => self.fail(rt, error.as_str()),
        }
    }
}

/// Lines that are logged after other lines.
proof fn lemma_logged_more(rt: WorkerRuntimeView, lines: Seq<Seq<char>>, more: Seq<Seq<char>>)
    ensures
        rt.logged_all(lines + more) == rt.logged_all(lines).logged_all(more),
    decreases more.len(),
{
    if more.len() == 0 {
        assert(lines + more =~= lines);
    } else {
        lemma_logged_more(rt, lines, more.drop_last());
        assert((lines + more).drop_last() =~= lines + more.drop_last());
    }
}

/// One line that is logged.
proof fn lemma_logged_one(rt: WorkerRuntimeView, line: Seq<char>)
    ensures
        rt.logged_all(seq![line]) == rt.logged(line),
{
    assert(seq![line].drop_last() =~= seq![]);
    assert(rt.logged_all(seq![]) == rt);
}

/// A step that runs a shell command logs itself in the form in which the log is read back:
/// its announcement, its description and command, and its result between markers.
pub proof fn command_step_is_logged(
    run: AgentRunView,
    rt: WorkerRuntimeView,
    request_id: u64,
    lines: Seq<Seq<char>>,
)
    requires
        run.phase == AgentPhase::Ready,
        run.index < run.workflow.steps.len(),
        run.step().claude is None,
        run.step().command is Some,
    ensures
        ({
            let begun = run.begin_step(rt, false, request_id);
            let done = begun.run.command_done(begun.rt, Ok(lines));
            let remarks = seq![
                "["@ + run.step().name + "] "@ + run.step_description(),
                "$ "@ + run.step().command->0,
            ];
            let log = log_parser::step_log(
                run.index as nat,
                run.step().name,
                remarks,
                lines,
                "[STEP_END:Success]"@,
            );
            let logged = rt.at(
                WorkerStatus::Running,
                run.step_description(),
                Some(run.step_label()),
            ).logged_all(log);
            &&& begun.action == AgentActionView::RunCommand { command: run.step().command->0 }
            &&& done.rt == (WorkerRuntimeView {
                completed_steps: done.rt.completed_steps,
                ..logged
            })
            &&& done.run.index == (run.index + 1) as usize
        }),
{
    let start = rt.at(WorkerStatus::Running, run.step_description(), Some(run.step_label()));
    let first = log_parser::step_start_line(run.index as nat, run.step().name);
    let remark = "["@ + run.step().name + "] "@ + run.step_description();
    let command = "$ "@ + run.step().command->0;
    let a = seq![first];
    let remarks = seq![remark, command];
    let c = seq!["[RESULT_START]"@];
    let e = seq!["[RESULT_END]"@];
    let f = seq!["[STEP_END:Success]"@];
    lemma_logged_one(start, first);
    assert(remarks =~= seq![remark] + seq![command]);
    let r1 = start.logged(first);
    lemma_logged_one(r1, remark);
    lemma_logged_more(r1, seq![remark], seq![command]);
    let r2 = r1.logged(remark);
    lemma_logged_one(r2, command);
    let r3 = r2.logged(command);
    lemma_logged_more(start, a, remarks);
    lemma_logged_more(start, a + remarks, c);
    lemma_logged_one(r3, c[0]);
    let r4 = r3.logged(c[0]);
    lemma_logged_more(start, a + remarks + c, lines);
    let r5 = r4.logged_all(lines);
    lemma_logged_more(start, a + remarks + c + lines, e);
    lemma_logged_one(r5, e[0]);
    let r6 = r5.logged(e[0]);
    lemma_logged_more(start, a + remarks + c + lines + e, f);
    lemma_logged_one(r6, f[0]);
}

/// A run never asks for permission for a step without an agent, and never runs an agent
/// before permission has been granted for its step: the only way to an agent is an answer
/// that allows it.
pub proof fn agent_needs_permission(
    run: AgentRunView,
    rt: WorkerRuntimeView,
    cancelled: bool,
    request_id: u64,
    error: Option<Seq<char>>,
    decision: Option<PermissionDecisionView>,
)
    ensures
        !(run.start(rt, cancelled).action is RunClaude),
        !(run.begin_step(rt, cancelled, request_id).action is RunClaude),
        !(run.asked(rt, error).action is RunClaude),
        run.answered(rt, decision).action is RunClaude ==> decision matches Some(
            PermissionDecisionView::Allow { .. },
        ),
        run.begin_step(rt, cancelled, request_id).action is AskPermission ==> run.step().claude
            is Some,
{
}

/// A denied request ends the run with the worker paused.
pub proof fn denial_pauses(run: AgentRunView, rt: WorkerRuntimeView)
    ensures
        run.answered(rt, Some(PermissionDecisionView::Deny)).action is Stop,
        run.answered(rt, Some(PermissionDecisionView::Deny)).rt.snapshot.status
            == WorkerStatus::Paused,
        run.answered(rt, Some(PermissionDecisionView::Deny)).rt.completed_steps
            == rt.completed_steps,
{
}

/// A step that fails ends the run with the worker failed and the step not completed.
pub proof fn failure_stops(run: AgentRunView, rt: WorkerRuntimeView, error: Seq<char>)
    ensures
        run.fail(rt, error).action is Stop,
        run.fail(rt, error).rt.snapshot.status == WorkerStatus::Failed,
        run.fail(rt, error).rt.completed_steps == rt.completed_steps,
{
}

/// What is logged changes neither what the dashboard shows of a worker nor how far it has come.
pub proof fn logging_changes_nothing_shown(rt: WorkerRuntimeView, lines: Seq<Seq<char>>)
    ensures
        rt.logged_all(lines).snapshot == rt.snapshot,
        rt.logged_all(lines).completed_steps == rt.completed_steps,
        rt.logged_all(lines).session_histories == rt.session_histories,
    decreases lines.len(),
{
    if lines.len() > 0 {
        logging_changes_nothing_shown(rt, lines.drop_last());
    }
}

/// A session is continued: once a step has left a session, the next step that runs the agent
/// is run in that session, with the argument that says so; and the history of the session is
/// kept.
pub proof fn sessions_are_continued(
    run: AgentRunView,
    rt: WorkerRuntimeView,
    log: Seq<Seq<char>>,
    session_id: Seq<char>,
    history: SessionHistoryView,
    request_id: u64,
    mode: Option<Seq<char>>,
    tools: Option<Seq<Seq<char>>>,
    dir: Seq<char>,
)
    requires
        run.index + 1 < run.workflow.steps.len() <= usize::MAX,
        run.workflow.steps[run.index + 1].claude is Some,
    ensures
        ({
            let done = run.claude_done(rt, log, Ok((Some(session_id), history)));
            let begun = done.run.begin_step(done.rt, false, request_id);
            let asked = begun.run.asked(begun.rt, None);
            let allowed = PermissionDecisionView::Allow {
                permission_mode: mode,
                allowed_tools: tools,
            };
            let granted = asked.run.answered(asked.rt, Some(allowed));
            &&& done.rt.snapshot.session_id == Some(session_id)
            &&& done.rt.session_histories == rt.session_histories.push(history)
            &&& (granted.action matches AgentActionView::RunClaude {
                step,
                prompt,
                session_id: resumed,
            } && resumed == Some(session_id) && claude::arguments(
                step,
                prompt,
                dir,
                resumed is Some,
            ).contains("--continue"@))
        }),
{
    let said = rt.logged_all(log);
    logging_changes_nothing_shown(rt, log);
    logging_changes_nothing_shown(said, done_section(run.product.name));
    let done = run.claude_done(rt, log, Ok((Some(session_id), history)));
    let started = said.logged_all(done_section(run.product.name)).updated(
        WorkerSnapshotView { session_id: Some(session_id), ..said.snapshot },
    ).with_history(history).logged("[RESULT_START]"@);
    logging_changes_nothing_shown(started, seq![]);
    let begun = done.run.begin_step(done.rt, false, request_id);
    let asked = begun.run.asked(begun.rt, None);
    let allowed = PermissionDecisionView::Allow { permission_mode: mode, allowed_tools: tools };
    let granted = asked.run.answered(asked.rt, Some(allowed));
    assert(begun.run.info.session_id == Some(session_id));
    if let AgentActionView::RunClaude { step, prompt, session_id: resumed } = granted.action {
        assert(claude::arguments(step, prompt, dir, true)[5] == "--continue"@);
    }
}

} // verus!
