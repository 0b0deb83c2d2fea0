use gensui::config::{ClaudeStep, Config, Workflow, WorkflowStep};
use gensui::json::parse;
use gensui::product::Product;
use gensui::state::{ManagerState, SessionEvent, SessionHistory, WorkerRecord};
use gensui::worker::agent::{render_prompt, AgentAction, AgentPhase, AgentRun};
use gensui::worker::claude::{
    claude_args, claude_binary, extract_thinking_lines, finish_run, local_binary, mode_or_bypass,
    ClaudeRun,
};
use gensui::worker::command::{determine_base_ref, run_shell_command};
use gensui::worker::list_existing_worktrees;
use gensui::worker::manager::{
    base_ref, worktree_added, CommandOutput, ManagerEffect, ManagerError, WorkerManager,
};
use gensui::worker::runtime::WorkerRuntime;
use gensui::worker::{
    CreateWorkerRequest, PermissionDecision, PermissionRequest, WorkerEvent, WorkerId,
    WorkerStatus,
};

const NOW: i64 = 1_700_000_000;

fn product() -> Product {
    Product {
        name: "Tool Suite".to_string(),
        short_name: "Tool".to_string(),
        command: "tool".to_string(),
        directory: ".tool".to_string(),
    }
}

fn command_step(name: &str, command: &str) -> WorkflowStep {
    WorkflowStep {
        name: name.to_string(),
        command: Some(command.to_string()),
        claude: None,
        description: None,
    }
}

fn claude(prompt: &str) -> ClaudeStep {
    ClaudeStep {
        prompt: prompt.to_string(),
        model: None,
        allowed_tools: None,
        permission_mode: None,
        extra_args: None,
        sandbox_mode: None,
    }
}

fn claude_step(name: &str, prompt: &str) -> WorkflowStep {
    WorkflowStep {
        name: name.to_string(),
        command: None,
        claude: Some(claude(prompt)),
        description: Some("説明".to_string()),
    }
}

fn config(steps: Vec<WorkflowStep>) -> Config {
    Config {
        workflows: vec![
            Workflow { name: "main".to_string(), description: None, steps },
            Workflow { name: "other".to_string(), description: None, steps: vec![] },
        ],
        default_workflow: None,
        default_sandbox_mode: true,
    }
}

fn manager(steps: Vec<WorkflowStep>) -> WorkerManager {
    WorkerManager::new("/repo".to_string(), product(), config(steps), 1)
}

fn created(m: &mut WorkerManager, request: &CreateWorkerRequest) -> WorkerId {
    let (id, name) = m.handle_create(request, NOW).unwrap();
    let plan = m.plan_worktree(id, request, NOW);
    m.finish_create(id, name, request, plan);
    id
}

fn named(name: &str) -> CreateWorkerRequest {
    let mut request = CreateWorkerRequest::default();
    request.name = Some(name.to_string());
    request
}

fn output(success: bool, stdout: &str, stderr: &str) -> CommandOutput {
    CommandOutput {
        success,
        status: "exit status: 1".to_string(),
        stdout: stdout.to_string(),
        stderr: stderr.to_string(),
    }
}

fn reports(m: &mut WorkerManager) -> Vec<WorkerEvent> {
    m.take_effects()
        .into_iter()
        .filter_map(|effect| match effect {
            ManagerEffect::Report(event) => Some(event),
            _ => None,
        })
        .collect()
}

fn saved(effects: Vec<ManagerEffect>) -> Option<WorkerRecord> {
    effects
        .into_iter()
        .filter_map(|effect| match effect {
            ManagerEffect::SaveWorker(record) => Some(record),
            _ => None,
        })
        .last()
}

fn history(id: &str) -> SessionHistory {
    SessionHistory {
        session_id: id.to_string(),
        started_at: "s".to_string(),
        ended_at: None,
        prompt: "p".to_string(),
        events: vec![],
        total_tool_uses: 0,
        files_modified: vec![],
    }
}

#[test]
fn a_worker_is_created_with_a_default_name() {
    let mut m = manager(vec![command_step("Build", "make")]);
    let request = CreateWorkerRequest::default();
    let (id, name) = m.handle_create(&request, NOW).unwrap();
    assert_eq!(id, WorkerId(1));
    assert_eq!(name, "worker-1-1700000000");
    let effects = m.take_effects();
    assert!(matches!(
        effects[0],
        ManagerEffect::SaveManager(ManagerState { next_id: 2 })
    ));
    let plan = m.plan_worktree(id, &request, NOW);
    assert!(plan.fresh);
    assert_eq!(plan.rel, ".worktrees/worker-001-1700000000");
    assert_eq!(plan.path, "/repo/.worktrees/worker-001-1700000000");
    assert_eq!(plan.branch, "gensui/worker-001-1700000000");
    m.finish_create(id, name, &request, plan);
    let worker = &m.workers[0].snapshot;
    assert_eq!(worker.status, WorkerStatus::Running);
    assert_eq!(worker.agent, "Tool Suite (simulated)");
    assert_eq!(worker.last_event, "Worktree provisioned");
    assert_eq!(worker.workflow, "main");
    assert_eq!(worker.total_steps, 1);
    let effects = m.take_effects();
    assert!(effects.iter().any(|e| matches!(e, ManagerEffect::StartAgent { id: WorkerId(1) })));
    let record = saved(effects).unwrap();
    assert_eq!(record.snapshot.status, "Running");
    assert_eq!(record.workflow.name, "main");
}

#[test]
fn names_of_workers_are_checked() {
    let mut m = manager(vec![]);
    created(&mut m, &named("one"));
    match m.handle_create(&named("one"), NOW) {
        Err(e) => {
            assert!(matches!(e, ManagerError::NameTaken(_)));
            assert_eq!(e.message(), "Worker name 'one' is already in use");
        }
        Ok(_) => panic!("the name is taken"),
    }
    match m.handle_create(&named("a/b"), NOW) {
        Err(e) => assert_eq!(
            e.message(),
            "Invalid worker name: Worker name contains invalid characters: /"
        ),
        Ok(_) => panic!("the name is invalid"),
    }
    // Numbers are used up all the same.
    let id = created(&mut m, &named("two"));
    assert_eq!(id, WorkerId(4));
}

#[test]
fn an_existing_worktree_is_used() {
    let mut m = manager(vec![]);
    let mut request = named("one");
    request.existing_worktree = Some(("/repo/.worktrees/x".to_string(), "b".to_string()));
    request.workflow = Some("missing".to_string());
    let (id, name) = m.handle_create(&request, NOW).unwrap();
    let plan = m.plan_worktree(id, &request, NOW);
    assert!(!plan.fresh);
    assert_eq!((plan.rel.as_str(), plan.branch.as_str()), (".worktrees/x", "b"));
    m.take_effects();
    m.finish_create(id, name, &request, plan);
    let lines: Vec<String> = reports(&mut m)
        .into_iter()
        .filter_map(|event| match event {
            WorkerEvent::Log { line, .. } => Some(line),
            _ => None,
        })
        .collect();
    assert_eq!(lines, vec!["Requested workflow 'missing' not found. Using 'main' instead"]);
}

#[test]
fn a_prompt_makes_a_workflow_of_its_own() {
    let mut m = manager(vec![]);
    let mut request = named("one");
    request.free_prompt = Some("do it".to_string());
    request.permission_mode = Some("plan".to_string());
    created(&mut m, &request);
    let workflow = &m.workers[0].workflow;
    assert_eq!(workflow.name, "free-form-1");
    assert_eq!(workflow.steps.len(), 1);
    assert_eq!(workflow.steps[0].name, "Free Prompt");
    let step = workflow.steps[0].claude.as_ref().unwrap();
    assert_eq!(step.prompt, "do it");
    assert_eq!(step.permission_mode, Some("plan".to_string()));
}

#[test]
fn git_failures_are_told() {
    assert_eq!(base_ref(None), "HEAD");
    assert_eq!(base_ref(Some("main".to_string())), "main");
    assert!(worktree_added(Some(output(true, "", ""))).is_ok());
    match worktree_added(Some(output(false, " out ", " err\n"))) {
        Err(e) => assert_eq!(
            e.message(),
            "git worktree add failed: status=exit status: 1 stdout='out' stderr='err'"
        ),
        Ok(()) => panic!("git failed"),
    }
    match worktree_added(None) {
        Err(e) => assert_eq!(e.message(), "failed to execute git worktree add"),
        Ok(()) => panic!("git did not run"),
    }
}

#[test]
fn a_worker_is_deleted_with_its_worktree() {
    let mut m = manager(vec![]);
    let id = created(&mut m, &named("one"));
    m.take_effects();
    match m.handle_delete(WorkerId(9)) {
        Err(e) => {
            assert!(matches!(e, ManagerError::NotFound(WorkerId(9))));
            assert_eq!(e.message(), "worker WorkerId(9) not found");
        }
        Ok(()) => panic!("there is no such worker"),
    }
    m.handle_delete(id).unwrap();
    assert!(matches!(m.take_effects()[0], ManagerEffect::StopAgent { id: WorkerId(1) }));
    let plan = m.remove_stopped(id);
    assert_eq!(plan.name, "one");
    assert!(m.workers.is_empty());
    m.worktree_removed(id, Some(output(false, "", "busy"))).unwrap();
    m.branch_deleted(id, &plan, Some(output(true, "", ""))).unwrap();
    let events = reports(&mut m);
    match &events[0] {
        WorkerEvent::Error { id, message } => {
            assert_eq!(*id, Some(WorkerId(1)));
            assert_eq!(message, "git worktree remove failed: stdout='' stderr='busy'");
        }
        _ => panic!("expected an error"),
    }
    match &events[1] {
        WorkerEvent::Deleted { message, .. } => {
            assert_eq!(message, &format!("Removed worktree {}", plan.worktree_path))
        }
        _ => panic!("expected a deletion"),
    }
}

#[test]
fn permission_requests_wait_for_an_answer() {
    let mut m = manager(vec![]);
    let id = created(&mut m, &named("one"));
    m.take_effects();
    let request = |request_id: u64| PermissionRequest {
        request_id,
        step_name: "Step".to_string(),
        description: None,
        permission_mode: None,
        allowed_tools: None,
    };
    m.handle_permission_prompt(id, request(5));
    m.handle_permission_prompt(id, request(6));
    m.handle_permission_prompt(WorkerId(8), request(7));
    assert_eq!(m.pending_permissions.len(), 3);
    m.take_effects();
    m.handle_permission_response(id, 5, PermissionDecision::Deny);
    let effects = m.take_effects();
    assert!(matches!(
        effects[0],
        ManagerEffect::Answer { request_id: 5, decision: PermissionDecision::Deny }
    ));
    m.handle_permission_response(id, 5, PermissionDecision::Deny);
    match &reports(&mut m)[0] {
        WorkerEvent::Error { message, .. } => {
            assert_eq!(message, "permission request 5 not found")
        }
        _ => panic!("expected an error"),
    }
    m.cancel_pending_permissions_for_worker(id);
    assert_eq!(m.pending_permissions.len(), 1);
    assert_eq!(m.pending_permissions[0].request_id, 7);
    let effects = m.take_effects();
    assert_eq!(effects.len(), 1);
    assert!(matches!(
        effects[0],
        ManagerEffect::Answer { request_id: 6, decision: PermissionDecision::Deny }
    ));
}

#[test]
fn a_continuation_adds_a_step() {
    let mut m = manager(vec![command_step("Build", "make")]);
    let id = created(&mut m, &named("one"));
    m.handle_continue(id).unwrap();
    m.take_effects();
    m.continue_stopped(id, "go on".to_string(), Some("plan".to_string()));
    let worker = &m.workers[0];
    assert_eq!(worker.workflow.steps.len(), 2);
    assert_eq!(worker.completed_steps, 1);
    assert_eq!(worker.workflow.steps[1].name, "Continue");
    assert_eq!(worker.snapshot.total_steps, 2);
    assert_eq!(worker.snapshot.last_event, "Continue with new instruction");
    let events = reports(&mut m);
    assert!(matches!(&events[0], WorkerEvent::Updated(_)));
    assert!(matches!(&events[1], WorkerEvent::Log { line, .. } if line == "追加指示を受信しました"));
    m.handle_restart(id).unwrap();
    m.restart_stopped(id);
    assert_eq!(m.workers[0].completed_steps, 0);
    assert_eq!(m.workers[0].snapshot.last_event, "Restart requested");
    assert!(m.handle_continue(WorkerId(9)).is_err());
    assert!(m.handle_restart(WorkerId(9)).is_err());
}

#[test]
fn a_worker_is_renamed_with_its_file() {
    let mut m = manager(vec![]);
    let id = created(&mut m, &named("one"));
    created(&mut m, &named("two"));
    m.take_effects();
    assert!(m.handle_rename(id, "one".to_string()).unwrap().is_none());
    assert!(m.handle_rename(id, "".to_string()).is_err());
    assert!(m.handle_rename(WorkerId(9), "three".to_string()).is_err());
    match m.handle_rename(id, "two".to_string()) {
        Err(e) => assert!(e.message().starts_with("Failed to rename worker: ")),
        Ok(_) => panic!("the name is taken"),
    }
    let renamed = m.handle_rename(id, "three".to_string()).unwrap();
    let (old_name, new_name) = renamed.unwrap();
    assert_eq!((old_name.as_str(), new_name.as_str()), ("one", "three"));
    let events = reports(&mut m);
    assert!(matches!(&events[0], WorkerEvent::Renamed { .. }));
    assert!(matches!(&events[1], WorkerEvent::Updated(s) if s.name == "three"));
    match m.rename_finished(id, old_name, new_name, Err("no file".to_string())) {
        Err(e) => assert_eq!(e.message(), "Failed to rename worker state file: no file"),
        Ok(()) => panic!("the file was not renamed"),
    }
    assert_eq!(m.name_registry.get_id("one"), Some(id));
    assert!(m.name_registry.is_available("three"));
}

#[test]
fn saved_workers_are_restored() {
    let mut m = manager(vec![command_step("Build", "make")]);
    let id = created(&mut m, &named("one"));
    m.workers[0].send_log("a line");
    m.take_effects();
    m.persist_worker(id);
    let record = saved(m.take_effects()).unwrap();
    let mut archived = record.clone();
    archived.snapshot.id = 5;
    archived.snapshot.name = "gone".to_string();

    let mut next = manager(vec![]);
    assert_eq!(next.worktree_of(&record), m.workers[0].worktree_path);
    next.restore_workers(&vec![record, archived], &vec![true, false]);
    assert_eq!(next.next_id, 6);
    assert_eq!(next.workers.len(), 1);
    assert_eq!(next.workers[0].snapshot.status, WorkerStatus::Idle);
    assert_eq!(next.workers[0].snapshot.last_event, "Restored from saved state");
    assert_eq!(next.workers[0].get_logs(), vec!["a line"]);
    assert!(!next.name_registry.is_available("gone"));
    let events = reports(&mut next);
    match &events[0] {
        WorkerEvent::Created(s) => assert_eq!(s.status, WorkerStatus::Idle),
        _ => panic!("expected a worker"),
    }
    match &events[2] {
        WorkerEvent::Created(s) => {
            assert_eq!(s.status, WorkerStatus::Archived);
            assert_eq!(s.last_event, "Archived (worktree removed)");
        }
        _ => panic!("expected an archived worker"),
    }
    next.shutdown_all();
    let effects = next.take_effects();
    assert!(matches!(effects[0], ManagerEffect::SaveWorker(_)));
    assert!(matches!(effects[1], ManagerEffect::StopAgent { .. }));
}

#[test]
fn a_command_step_runs_without_permission() {
    let mut m = manager(vec![command_step("Build", "make")]);
    created(&mut m, &named("one"));
    let mut rt = m.workers.remove(0);
    rt.take_events();
    let mut run = AgentRun::new(&rt, &product());
    assert!(matches!(run.start(&mut rt, false), AgentAction::Proceed));
    assert_eq!(rt.snapshot.last_event, "ワークフロー 'main' を開始");
    match run.begin_step(&mut rt, false, 1) {
        AgentAction::RunCommand { command } => assert_eq!(command, "make"),
        _ => panic!("expected a command"),
    }
    assert_eq!(rt.snapshot.current_step, Some("1/1: Build".to_string()));
    let lines = vec!["done".to_string()];
    assert!(matches!(run.command_done(&mut rt, Ok(lines)), AgentAction::StepDone));
    assert_eq!(rt.completed_steps, 1);
    assert!(matches!(run.begin_step(&mut rt, false, 2), AgentAction::Stop));
    assert_eq!(rt.snapshot.status, WorkerStatus::Idle);
    assert_eq!(
        rt.get_logs(),
        vec![
            "[STEP_START:0:Build]",
            "[Build] ステップを実行",
            "$ make",
            "[RESULT_START]",
            "done",
            "[RESULT_END]",
            "[STEP_END:Success]",
            "Workflow 'main' completed",
        ]
    );
}

/// Runs a worker to its end and returns the commands that were run; `failing` does not end well.
fn commands_run(rt: &mut WorkerRuntime, failing: &str) -> Vec<String> {
    let mut run = AgentRun::new(rt, &product());
    let mut commands = Vec::new();
    let mut action = run.start(rt, false);
    loop {
        action = match action {
            AgentAction::Proceed | AgentAction::StepDone => run.begin_step(rt, false, 0),
            AgentAction::RunCommand { command } => {
                let result = if command == failing { Err("broken".to_string()) } else { Ok(vec![]) };
                commands.push(command);
                run.command_done(rt, result)
            }
            AgentAction::Stop => return commands,
            _ => panic!("expected commands only"),
        };
    }
}

#[test]
fn a_workflow_is_run_once_and_in_order() {
    let steps = vec![command_step("A", "a"), command_step("B", "b"), command_step("C", "c")];
    let mut m = manager(steps);
    created(&mut m, &named("one"));
    let mut rt = m.workers.remove(0);
    assert_eq!(commands_run(&mut rt, "b"), vec!["a", "b"]);
    assert_eq!(rt.snapshot.status, WorkerStatus::Failed);
    assert_eq!(rt.snapshot.current_step, Some("2/3: B".to_string()));
    assert_eq!(rt.completed_steps, 1);
    assert_eq!(commands_run(&mut rt, ""), vec!["b", "c"]);
    assert_eq!(rt.snapshot.status, WorkerStatus::Idle);
    assert_eq!(rt.snapshot.current_step, None);
    assert_eq!(rt.get_logs().last().unwrap(), "Workflow 'main' completed");
    assert_eq!(rt.completed_steps, 3);
    assert!(commands_run(&mut rt, "").is_empty());
    assert_eq!(rt.snapshot.status, WorkerStatus::Idle);
}

#[test]
fn a_failing_command_stops_the_agent() {
    let mut m = manager(vec![command_step("Build", "make"), command_step("Test", "test")]);
    created(&mut m, &named("one"));
    let mut rt = m.workers.remove(0);
    let mut run = AgentRun::new(&rt, &product());
    run.start(&mut rt, false);
    run.begin_step(&mut rt, false, 1);
    let action = run.command_done(&mut rt, Err("broken".to_string()));
    assert!(matches!(action, AgentAction::Stop));
    assert_eq!(rt.snapshot.status, WorkerStatus::Failed);
    assert_eq!(rt.snapshot.last_event, "Command failed: broken");
    assert_eq!(rt.completed_steps, 0);
    assert_eq!(run.phase, AgentPhase::Stopped);
}

#[test]
fn a_claude_step_asks_for_permission() {
    let mut m = manager(vec![claude_step("Plan", "Work on {{issue}} in {{worker}}")]);
    created(&mut m, &named("one"));
    let mut rt = m.workers.remove(0);
    let mut run = AgentRun::new(&rt, &product());
    run.start(&mut rt, false);
    match run.begin_step(&mut rt, false, 42) {
        AgentAction::AskPermission { request } => {
            assert_eq!(request.request_id, 42);
            assert_eq!(request.step_name, "Plan");
        }
        _ => panic!("expected a request"),
    }
    assert!(matches!(run.asked(&mut rt, None), AgentAction::AwaitPermission));
    assert_eq!(rt.snapshot.last_event, "ステップ 'Plan' の権限確認を待機中");
    let decision = PermissionDecision::Allow {
        permission_mode: Some("acceptEdits".to_string()),
        allowed_tools: Some(vec!["Read".to_string()]),
    };
    match run.answered(&mut rt, Some(decision)) {
        AgentAction::RunClaude { step, prompt, session_id } => {
            assert_eq!(prompt, "Work on (no issue) in one");
            assert_eq!(step.permission_mode, Some("acceptEdits".to_string()));
            assert_eq!(step.allowed_tools, Some(vec!["Read".to_string()]));
            assert_eq!(session_id, None);
        }
        _ => panic!("expected a run"),
    }
    assert_eq!(rt.snapshot.last_event, "Tool Suiteを実行中... ⏳");
    assert!(rt.get_logs().contains(&"─── Tool Suite コマンド ───".to_string()));
    assert!(rt.get_logs().contains(&"⏳ Tool Suite実行中...".to_string()));
    let log = vec!["💬 hello".to_string()];
    let result = Ok((Some("s1".to_string()), history("s1")));
    assert!(matches!(run.claude_done(&mut rt, &log, result), AgentAction::StepDone));
    assert_eq!(rt.snapshot.session_id, Some("s1".to_string()));
    assert_eq!(rt.session_histories.len(), 1);
    assert!(rt.get_logs().contains(&"💬 hello".to_string()));
    assert!(rt.get_logs().contains(&"✅ Tool Suite実行完了".to_string()));
}

#[test]
fn a_prompt_of_the_user_names_the_product() {
    let mut m = manager(vec![]);
    let request = CreateWorkerRequest { free_prompt: Some("p".to_string()), ..named("one") };
    created(&mut m, &request);
    let workflow = &m.workers[0].workflow;
    assert_eq!(workflow.description, Some("On-demand Tool execution".to_string()));
}

#[test]
fn a_denied_step_pauses_the_worker() {
    let mut m = manager(vec![claude_step("Plan", "x")]);
    created(&mut m, &named("one"));
    let mut rt = m.workers.remove(0);
    let mut run = AgentRun::new(&rt, &product());
    run.start(&mut rt, false);
    run.begin_step(&mut rt, false, 1);
    run.asked(&mut rt, None);
    let action = run.answered(&mut rt, Some(PermissionDecision::Deny));
    assert!(matches!(action, AgentAction::Stop));
    assert_eq!(rt.snapshot.status, WorkerStatus::Paused);
    assert_eq!(rt.snapshot.last_event, "ステップ 'Plan' の権限が拒否されました");
}

#[test]
fn a_request_that_is_lost_fails_the_worker() {
    let mut m = manager(vec![claude_step("Plan", "x")]);
    created(&mut m, &named("one"));
    let mut rt = m.workers.remove(0);
    let mut run = AgentRun::new(&rt, &product());
    run.start(&mut rt, false);
    run.begin_step(&mut rt, false, 1);
    let mut lost = AgentRun::new(&rt, &product());
    run.asked(&mut rt, None);
    assert!(matches!(run.answered(&mut rt, None), AgentAction::Stop));
    assert_eq!(rt.snapshot.status, WorkerStatus::Failed);
    assert_eq!(rt.snapshot.last_event, "権限確認中にエラーが発生");
    lost.start(&mut rt, false);
    lost.begin_step(&mut rt, false, 2);
    assert!(matches!(lost.asked(&mut rt, Some("closed".to_string())), AgentAction::Stop));
    assert_eq!(rt.snapshot.last_event, "権限要求の送信に失敗しました");
}

#[test]
fn a_cancelled_agent_pauses() {
    let mut m = manager(vec![command_step("Build", "make")]);
    created(&mut m, &named("one"));
    let mut rt = m.workers.remove(0);
    let mut run = AgentRun::new(&rt, &product());
    run.start(&mut rt, false);
    assert!(matches!(run.begin_step(&mut rt, true, 1), AgentAction::Stop));
    assert_eq!(rt.snapshot.status, WorkerStatus::Paused);
    assert_eq!(rt.snapshot.last_event, "ワーカーがキャンセルされました");
}

#[test]
fn a_workflow_without_steps_is_idle() {
    let mut m = manager(vec![]);
    created(&mut m, &named("one"));
    let mut rt = m.workers.remove(0);
    let mut run = AgentRun::new(&rt, &product());
    assert!(matches!(run.start(&mut rt, false), AgentAction::Stop));
    assert_eq!(rt.snapshot.status, WorkerStatus::Idle);
    assert_eq!(rt.snapshot.last_event, "No workflow steps defined");
}

#[test]
fn prompts_are_filled_in() {
    let mut m = manager(vec![]);
    let mut request = named("one");
    request.issue = Some("#7".to_string());
    created(&mut m, &request);
    let snapshot = &m.workers[0].snapshot;
    assert_eq!(
        render_prompt("{{issue}} {{worker}} {{worktree}} {{other}}", snapshot),
        format!("#7 one {} {{{{other}}}}", snapshot.worktree)
    );
}

#[test]
fn the_arguments_of_the_agent_are_built() {
    let mut step = claude("x");
    assert_eq!(
        claude_args(&step, "do it", "/w", None),
        vec![
            "--print",
            "do it",
            "--output-format",
            "stream-json",
            "--verbose",
            "--permission-mode",
            "bypassPermissions",
        ]
    );
    step.model = Some("m".to_string());
    step.permission_mode = Some("plan".to_string());
    step.allowed_tools = Some(vec!["Read".to_string(), "Write".to_string()]);
    step.extra_args = Some(vec!["--dir={{workdir}}".to_string(), "{{prompt}}".to_string()]);
    assert_eq!(
        claude_args(&step, "do it", "/w", Some("s"))[5..].to_vec(),
        vec![
            "--continue",
            "--model",
            "m",
            "--permission-mode",
            "plan",
            "--allowedTools",
            "Read,Write",
            "--dir=/w",
            "do it",
        ]
    );
    assert_eq!(mode_or_bypass(&None), "bypassPermissions");
    assert_eq!(local_binary(Some("/home/u".to_string()), &product()), "/home/u/.tool/local/tool");
    assert_eq!(local_binary(None, &product()), "./.tool/local/tool");
    assert_eq!(claude_binary(Some("x".to_string()), "l".to_string(), true, &product()), "x");
    assert_eq!(claude_binary(None, "l".to_string(), true, &product()), "l");
    assert_eq!(claude_binary(None, "l".to_string(), false, &product()), "tool");
}

#[test]
fn the_output_of_the_agent_is_read() {
    let output = r#"{"type":"system","session_id":"s1"}
plain text
{"type":"assistant","text":"hello"}
{"type":"thinking","text":"line one\nline two"}
{"type":"tool_use","name":"Write","input":{"file_path":"a.rs"}}
{"type":"tool_result","tool_use_id":"Write","content":"ok"}
{"type":"error","error":{"message":"bad"}}
{"type":"result","is_error":true,"result":"all\ndone"}
"#;
    let mut run = ClaudeRun::new(&product());
    run.take_output(output, || 0);
    assert_eq!(
        run.log,
        vec![
            "plain text",
            "💬 hello",
            "[THOUGHT_START]",
            "line one",
            "line two",
            "thinking",
            "[THOUGHT_END]",
            "🔧 Using tool: Write",
            "❌ API Error:",
            "  bad",
            "⚠️  Tool encountered an error",
            "─── Result ───",
            "all",
            "done",
        ]
    );
    assert_eq!(run.session_id, Some("s1".to_string()));
    assert_eq!(run.tool_uses, 1);
    assert_eq!(run.files, vec!["a.rs"]);
    assert_eq!(run.events.len(), 6);
    match &run.events[1] {
        SessionEvent::ThinkingBlock { content, timestamp } => {
            assert_eq!(content, "line one\nline two\nthinking");
            assert_eq!(timestamp, "1970-01-01T00:00:00Z");
        }
        _ => panic!("expected a thought"),
    }
    let (session_id, history) = finish_run(run, "p", 0, 0, 1_000_000_000).unwrap();
    assert_eq!(session_id, Some("s1".to_string()));
    assert_eq!(history.ended_at, Some("1970-01-01T00:00:01Z".to_string()));
    assert_eq!(history.total_tool_uses, 1);
    match finish_run(ClaudeRun::new(&product()), "p", 2, 0, 0) {
        Err(e) => assert_eq!(e.message(), "Tool CLI exited with status 2"),
        Ok(_) => panic!("the agent failed"),
    }
    let (none, unknown) = finish_run(ClaudeRun::new(&product()), "p", 0, 0, 0).unwrap();
    assert_eq!(none, None);
    assert_eq!(unknown.session_id, "unknown");
}

#[test]
fn thoughts_are_found_wherever_they_stand() {
    let value = parse(
        r#"{"message":{"content":[{"type":"Thinking","text":"a  \n\nb"},{"type":"text","text":"no"}]},
            "plan":{"x":["c"]},"thinking":"d"}"#,
    )
    .unwrap();
    assert_eq!(extract_thinking_lines(&value), vec!["d", "a", "b", "Thinking", "c", "d"]);
}

#[test]
fn shell_output_is_collected() {
    let lines = run_shell_command("make", "a\n\nb\n", "warning\n", true, "exit status: 0").unwrap();
    assert_eq!(lines, vec!["a", "b", "warning"]);
    match run_shell_command("make", "", "", false, "exit status: 2") {
        Err(e) => assert_eq!(e.message(), "command 'make' exited with status exit status: 2"),
        Ok(_) => panic!("the command failed"),
    }
}

#[test]
fn the_current_branch_is_the_base() {
    assert_eq!(determine_base_ref(true, "main\n"), Some("main".to_string()));
    assert_eq!(determine_base_ref(true, "HEAD\n"), None);
    assert_eq!(determine_base_ref(true, " \n"), None);
    assert_eq!(determine_base_ref(false, "main\n"), None);
}

#[test]
fn worktrees_are_listed() {
    let stdout = "worktree /repo\nHEAD abc\nbranch refs/heads/main\n\nworktree /repo/.worktrees/x\n\
                  HEAD def\ndetached\n\nworktree /bare\nbare\n";
    let worktrees = list_existing_worktrees(true, stdout, "").unwrap();
    let pairs: Vec<(String, String)> =
        worktrees.into_iter().map(|worktree| (worktree.path, worktree.branch)).collect();
    assert_eq!(
        pairs,
        vec![
            ("/repo".to_string(), "main".to_string()),
            ("/repo/.worktrees/x".to_string(), "(detached HEAD)".to_string()),
        ]
    );
    match list_existing_worktrees(false, "", "fatal: no repository\n") {
        Err(e) => assert_eq!(e, "git worktree list failed: fatal: no repository"),
        Ok(_) => panic!("git failed"),
    }
}

#[test]
fn a_session_is_continued_by_the_next_step() {
    let mut m = manager(vec![claude_step("Plan", "x"), claude_step("Build", "y")]);
    created(&mut m, &named("one"));
    let mut rt = m.workers.remove(0);
    let mut run = AgentRun::new(&rt, &product());
    let allow = || PermissionDecision::Allow { permission_mode: None, allowed_tools: None };
    run.start(&mut rt, false);
    run.begin_step(&mut rt, false, 1);
    run.asked(&mut rt, None);
    run.answered(&mut rt, Some(allow()));
    run.claude_done(&mut rt, &vec![], Ok((Some("s1".to_string()), history("s1"))));
    run.begin_step(&mut rt, false, 2);
    run.asked(&mut rt, None);
    match run.answered(&mut rt, Some(allow())) {
        AgentAction::RunClaude { step, prompt, session_id } => {
            assert_eq!(session_id, Some("s1".to_string()));
            let args = claude_args(&step, &prompt, "/w", session_id.as_deref());
            assert!(args.contains(&"--continue".to_string()));
        }
        _ => panic!("expected a run"),
    }
}
