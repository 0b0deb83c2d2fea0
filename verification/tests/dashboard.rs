use gensui::app::interactive::{interactive_args, is_resumable, lines_on_return};
use gensui::app::rendering::Window;
use gensui::app::types::{AppEffect, InputMode, KeyCode, KeyEvent, KeyModifiers};
use gensui::app::App;
use gensui::config::{Config, Workflow};
use gensui::product::Product;
use gensui::state::{ActionLogEntry, SessionHistory, WorkerRecord, WorkerSnapshotData};
use gensui::ui::canvas::{Rect, Widget};
use gensui::ui::types::LogViewMode;
use gensui::worker::{
    ExistingWorktree, PermissionDecision, PermissionRequest, WorkerCommand, WorkerEvent, WorkerId,
    WorkerSnapshot, WorkerStatus,
};

fn product() -> Product {
    Product {
        name: "Tool Suite".to_string(),
        short_name: "Tool".to_string(),
        command: "tool".to_string(),
        directory: ".tool".to_string(),
    }
}

fn snapshot(id: usize, name: &str, status: WorkerStatus) -> WorkerSnapshot {
    WorkerSnapshot {
        id: WorkerId(id),
        name: name.to_string(),
        issue: None,
        agent: "a".to_string(),
        worktree: ".worktrees/w".to_string(),
        branch: "b".to_string(),
        status,
        last_event: "e".to_string(),
        workflow: "f".to_string(),
        total_steps: 3,
        current_step: None,
        session_id: None,
    }
}

fn app() -> App {
    let config = Config {
        workflows: vec![
            Workflow { name: "first".to_string(), description: None, steps: vec![] },
            Workflow {
                name: "second".to_string(),
                description: Some("two".to_string()),
                steps: vec![],
            },
        ],
        default_workflow: Some("second".to_string()),
        default_sandbox_mode: true,
    };
    App::new("/repo".to_string(), product(), config, &vec![])
}

fn app_with_workers() -> App {
    let mut app = app();
    app.add_or_update_worker(snapshot(1, "one", WorkerStatus::Running));
    app.add_or_update_worker(snapshot(2, "two", WorkerStatus::Idle));
    app.add_or_update_worker(snapshot(3, "old", WorkerStatus::Archived));
    app
}

fn with(code: KeyCode, shift: bool, control: bool) -> KeyEvent {
    KeyEvent { code, modifiers: KeyModifiers { shift, control, alt: false, other: false } }
}

fn press(app: &mut App, code: KeyCode) -> bool {
    app.handle_key(with(code, false, false), 0)
}

fn type_text(app: &mut App, text: &str) {
    for c in text.chars() {
        press(app, KeyCode::Char(c));
    }
}

fn messages(app: &mut App) -> Vec<String> {
    app.take_effects()
        .into_iter()
        .filter_map(|effect| match effect {
            AppEffect::AppendActionLog(entry) => Some(entry.message),
            _ => None,
        })
        .collect()
}

fn request(request_id: u64) -> PermissionRequest {
    PermissionRequest {
        request_id,
        step_name: "Step".to_string(),
        description: None,
        permission_mode: Some("plan".to_string()),
        allowed_tools: None,
    }
}

fn history(id: &str) -> SessionHistory {
    SessionHistory {
        session_id: id.to_string(),
        started_at: "s".to_string(),
        ended_at: None,
        prompt: "p".to_string(),
        events: vec![],
        total_tool_uses: 0,
        files_modified: vec![],
    }
}

fn record(name: &str) -> WorkerRecord {
    WorkerRecord {
        snapshot: WorkerSnapshotData {
            id: 1,
            name: name.to_string(),
            issue: None,
            agent: "a".to_string(),
            worktree: ".worktrees/w".to_string(),
            branch: "b".to_string(),
            status: "Idle".to_string(),
            last_event: "e".to_string(),
            workflow: "f".to_string(),
            total_steps: 0,
            current_step: None,
            session_id: None,
        },
        logs: vec![],
        workflow: Workflow { name: "f".to_string(), description: None, steps: vec![] },
        completed_steps: 0,
        session_history: vec![],
    }
}

#[test]
fn the_dashboard_starts_with_the_default_workflow() {
    let app = app();
    assert_eq!(app.current_workflow_name(), "second");
    assert!(app.auto_scroll_logs);
    let empty = Config { workflows: vec![], default_workflow: None, default_sandbox_mode: true };
    let entry = ActionLogEntry {
        timestamp: "t".to_string(),
        message: "m".to_string(),
        worker: None,
    };
    let app = App::new("/repo".to_string(), product(), empty, &vec![entry]);
    assert_eq!(app.workflows.len(), 1);
    assert_eq!(app.log_messages[0], "[t] m");
}

#[test]
fn only_q_ends_the_program() {
    let mut app = app();
    assert!(!press(&mut app, KeyCode::Esc));
    assert!(press(&mut app, KeyCode::Char('q')));
    press(&mut app, KeyCode::Char('i'));
    assert!(!press(&mut app, KeyCode::Char('q')));
    assert!(matches!(&app.input_mode, Some(InputMode::FreePrompt { buffer, .. }) if buffer == "q"));
}

#[test]
fn the_selection_stays_on_visible_workers() {
    let mut app = app_with_workers();
    press(&mut app, KeyCode::Down);
    press(&mut app, KeyCode::Char('j'));
    press(&mut app, KeyCode::Down);
    assert_eq!(app.selected_worker_id(), Some(WorkerId(3)));
    press(&mut app, KeyCode::Char('k'));
    assert_eq!(app.selected_worker_id(), Some(WorkerId(2)));
    press(&mut app, KeyCode::Home);
    assert_eq!(app.selected, 0);
    press(&mut app, KeyCode::End);
    assert_eq!(app.selected, 2);
    app.remove_worker(WorkerId(3));
    assert_eq!(app.selected, 1);
    let effects = app.take_effects();
    assert!(matches!(&effects[0], AppEffect::DeleteWorkerState { name } if name == "old"));
    press(&mut app, KeyCode::Char('a'));
    assert_eq!(app.status_filter, Some(WorkerStatus::Running));
    assert_eq!(app.visible_indices(), vec![0]);
    for _ in 0..5 {
        press(&mut app, KeyCode::Char('a'));
    }
    assert_eq!(app.status_filter, None);
}

#[test]
fn workflows_are_gone_through() {
    let mut app = app();
    press(&mut app, KeyCode::Char('w'));
    assert_eq!(app.current_workflow_name(), "first");
    press(&mut app, KeyCode::Char('w'));
    assert_eq!(app.current_workflow_name(), "second");
    assert_eq!(
        messages(&mut app),
        vec![
            "使用するワークフローを 'first' に切り替えました (説明なし)",
            "使用するワークフローを 'second' に切り替えました (two)",
        ]
    );
}

#[test]
fn a_worker_is_asked_for_by_name() {
    let mut app = app();
    press(&mut app, KeyCode::Char('c'));
    press(&mut app, KeyCode::Enter);
    type_text(&mut app, " my-worker");
    press(&mut app, KeyCode::Backspace);
    app.handle_key(with(KeyCode::Char('x'), false, true), 0);
    press(&mut app, KeyCode::Enter);
    assert!(app.input_mode.is_none());
    match &app.manager.take_commands()[0] {
        WorkerCommand::Create(request) => {
            assert_eq!(request.name, Some("my-worke".to_string()));
            assert_eq!(request.workflow, Some("second".to_string()));
        }
        _ => panic!("expected a new worker"),
    }
    assert_eq!(messages(&mut app), vec!["ワーカーを作成しました: my-worke"]);
    press(&mut app, KeyCode::Char('c'));
    press(&mut app, KeyCode::Enter);
    press(&mut app, KeyCode::Esc);
    match &app.manager.take_commands()[0] {
        WorkerCommand::Create(request) => assert_eq!(request.name, None),
        _ => panic!("expected a new worker"),
    }
}

#[test]
fn a_prompt_makes_a_new_worker() {
    let mut app = app_with_workers();
    press(&mut app, KeyCode::Char('c'));
    press(&mut app, KeyCode::Down);
    press(&mut app, KeyCode::Enter);
    press(&mut app, KeyCode::Enter);
    app.handle_key(with(KeyCode::Char('p'), false, true), 0);
    type_text(&mut app, "do it");
    press(&mut app, KeyCode::Tab);
    press(&mut app, KeyCode::Enter);
    match &app.manager.take_commands()[0] {
        WorkerCommand::Create(request) => {
            assert_eq!(request.free_prompt, Some("do it".to_string()));
            assert_eq!(request.permission_mode, Some("plan".to_string()));
            assert_eq!(request.name, None);
        }
        _ => panic!("expected a new worker"),
    }
    assert_eq!(messages(&mut app), vec!["自由指示を送信しました (プランモード): do it"]);
}

#[test]
fn a_prompt_continues_the_selected_worker() {
    let mut app = app_with_workers();
    press(&mut app, KeyCode::Down);
    press(&mut app, KeyCode::Char('i'));
    type_text(&mut app, "go on");
    press(&mut app, KeyCode::Enter);
    match &app.manager.take_commands()[0] {
        WorkerCommand::Continue { id, prompt, permission_mode } => {
            assert_eq!(*id, WorkerId(2));
            assert_eq!(prompt, "go on");
            assert_eq!(*permission_mode, None);
        }
        _ => panic!("expected a continuation"),
    }
    assert_eq!(
        messages(&mut app),
        vec!["追加指示を送信しました (worker-2, 制限なしモード): go on"]
    );
    press(&mut app, KeyCode::Char('i'));
    press(&mut app, KeyCode::Enter);
    assert_eq!(messages(&mut app), vec!["空の指示は送信されませんでした"]);
}

#[test]
fn archived_workers_are_left_alone() {
    let mut app = app_with_workers();
    press(&mut app, KeyCode::End);
    press(&mut app, KeyCode::Char('r'));
    app.handle_key(with(KeyCode::Char('I'), true, false), 0);
    app.submit_free_prompt("x".to_string(), false, None, None, 0);
    assert!(app.manager.take_commands().is_empty());
    assert!(app.pending_interactive_mode.is_none());
    assert_eq!(
        messages(&mut app),
        vec![
            "アーカイブされたワーカーは再起動できません",
            "アーカイブされたワーカーではインタラクティブモードを使用できません",
            "アーカイブされたワーカーには追加指示を送信できません",
        ]
    );
    press(&mut app, KeyCode::Char('d'));
    let effects = app.take_effects();
    match &effects[0] {
        AppEffect::DeleteArchive { id, name } => {
            assert_eq!(*id, WorkerId(3));
            assert_eq!(name, "old");
        }
        _ => panic!("expected a deletion"),
    }
    app.archive_deleted(WorkerId(3), Some("denied".to_string()), 0);
    assert_eq!(app.workers.len(), 3);
    app.archive_deleted(WorkerId(3), None, 0);
    assert_eq!(app.workers.len(), 2);
    assert_eq!(app.selected, 1);
    assert_eq!(
        messages(&mut app),
        vec!["アーカイブ削除に失敗しました: denied", "アーカイブを削除しました: old"]
    );
}

#[test]
fn commands_that_nobody_takes_are_told() {
    let mut app = app_with_workers();
    app.manager.open = false;
    press(&mut app, KeyCode::Char('d'));
    press(&mut app, KeyCode::Char('r'));
    app.rename_worker(WorkerId(1), "x".to_string(), 0);
    assert!(app.manager.take_commands().is_empty());
    assert_eq!(
        messages(&mut app),
        vec![
            "ワーカー削除に失敗しました (WorkerId(1)): failed to enqueue worker deletion: sending on a closed channel",
            "ワーカー再起動に失敗しました (WorkerId(1)): failed to enqueue worker restart: sending on a closed channel",
            "ワーカー名の変更に失敗しました: failed to enqueue worker rename: sending on a closed channel",
        ]
    );
}

#[test]
fn a_worker_is_renamed() {
    let mut app = app_with_workers();
    press(&mut app, KeyCode::Char('n'));
    press(&mut app, KeyCode::Enter);
    assert_eq!(messages(&mut app), vec!["空の名前は無効です"]);
    press(&mut app, KeyCode::Char('n'));
    type_text(&mut app, "new");
    press(&mut app, KeyCode::Enter);
    match &app.manager.take_commands()[0] {
        WorkerCommand::Rename { id, new_name } => {
            assert_eq!(*id, WorkerId(1));
            assert_eq!(new_name, "new");
        }
        _ => panic!("expected a new name"),
    }
}

#[test]
fn worktrees_are_chosen() {
    let mut app = app();
    press(&mut app, KeyCode::Char('c'));
    press(&mut app, KeyCode::Down);
    press(&mut app, KeyCode::Down);
    press(&mut app, KeyCode::Down);
    press(&mut app, KeyCode::Enter);
    assert!(matches!(app.take_effects()[0], AppEffect::ListWorktrees));
    app.show_worktree_selection(Ok(vec![]), 0);
    app.show_worktree_selection(Err("broken".to_string()), 0);
    assert_eq!(
        messages(&mut app),
        vec![
            "既存のworktreeが見つかりませんでした",
            "worktreeの一覧取得に失敗しました: broken",
        ]
    );
    let worktree = |path: &str| ExistingWorktree {
        path: path.to_string(),
        branch: format!("{}-branch", path),
    };
    app.show_worktree_selection(Ok(vec![worktree("/a"), worktree("/b")]), 0);
    press(&mut app, KeyCode::Down);
    press(&mut app, KeyCode::Down);
    press(&mut app, KeyCode::Enter);
    match &app.manager.take_commands()[0] {
        WorkerCommand::Create(request) => assert_eq!(
            request.existing_worktree,
            Some(("/b".to_string(), "/b-branch".to_string()))
        ),
        _ => panic!("expected a new worker"),
    }
}

#[test]
fn a_permission_request_is_answered() {
    let mut app = app_with_workers();
    app.handle_event(
        WorkerEvent::PermissionRequested { id: WorkerId(1), request: request(9) },
        0,
    );
    assert_eq!(app.open_windows(), vec![Window::Permission]);
    assert!(!press(&mut app, KeyCode::Char('q')));
    press(&mut app, KeyCode::Left);
    press(&mut app, KeyCode::Enter);
    match &app.manager.take_commands()[0] {
        WorkerCommand::PermissionResponse { id, request_id, decision } => {
            assert_eq!((*id, *request_id), (WorkerId(1), 9));
            assert!(matches!(decision, PermissionDecision::Deny));
        }
        _ => panic!("expected an answer"),
    }
    assert!(app.permission_tracker.contains_key(&9));
    app.take_effects();
    app.handle_event(
        WorkerEvent::PermissionResolved {
            id: WorkerId(1),
            request_id: 9,
            decision: PermissionDecision::Deny,
        },
        0,
    );
    assert!(app.permission_tracker.is_empty());
    assert_eq!(messages(&mut app), vec!["ステップ 'Step' の権限を拒否しました"]);
    app.handle_event(
        WorkerEvent::PermissionResolved {
            id: WorkerId(1),
            request_id: 10,
            decision: PermissionDecision::Deny,
        },
        0,
    );
    assert_eq!(messages(&mut app), vec!["権限リクエスト (#10) を拒否しました"]);
}

#[test]
fn tools_are_granted() {
    let mut app = app_with_workers();
    app.handle_event(
        WorkerEvent::PermissionRequested { id: WorkerId(1), request: request(9) },
        0,
    );
    press(&mut app, KeyCode::Char('y'));
    assert!(app.permission_prompt.is_none());
    press(&mut app, KeyCode::Char(' '));
    press(&mut app, KeyCode::Down);
    press(&mut app, KeyCode::Down);
    press(&mut app, KeyCode::Char(' '));
    for _ in 0..9 {
        press(&mut app, KeyCode::Down);
    }
    press(&mut app, KeyCode::Char(' '));
    press(&mut app, KeyCode::Enter);
    match &app.manager.take_commands()[0] {
        WorkerCommand::PermissionResponse {
            decision: PermissionDecision::Allow { permission_mode, allowed_tools },
            ..
        } => {
            assert_eq!(*permission_mode, Some("bypassPermissions".to_string()));
            assert_eq!(
                *allowed_tools,
                Some(vec!["Read".to_string(), "Edit".to_string()])
            );
        }
        _ => panic!("expected a permission"),
    }
    assert_eq!(app.permission_tracker[&9].step_name, "Tool selection");
    app.handle_event(
        WorkerEvent::PermissionRequested { id: WorkerId(1), request: request(10) },
        0,
    );
    press(&mut app, KeyCode::Enter);
    press(&mut app, KeyCode::Enter);
    match &app.manager.take_commands()[0] {
        WorkerCommand::PermissionResponse {
            decision: PermissionDecision::Allow { allowed_tools, .. },
            ..
        } => assert_eq!(*allowed_tools, None),
        _ => panic!("expected a permission"),
    }
}

#[test]
fn events_reach_the_dashboard() {
    let mut app = app();
    let events = vec![
        WorkerEvent::Created(snapshot(1, "one", WorkerStatus::Running)),
        WorkerEvent::Log { id: WorkerId(1), line: "[STEP_START:0:S]".to_string() },
        WorkerEvent::Log { id: WorkerId(1), line: "[STEP_END:Success]".to_string() },
        WorkerEvent::Updated(snapshot(1, "one", WorkerStatus::Idle)),
        WorkerEvent::Renamed {
            id: WorkerId(1),
            old_name: "one".to_string(),
            new_name: "uno".to_string(),
        },
        WorkerEvent::Error { id: Some(WorkerId(1)), message: "bad".to_string() },
        WorkerEvent::Error { id: None, message: "worse".to_string() },
        WorkerEvent::Deleted { id: WorkerId(1), message: "gone".to_string() },
    ];
    app.on_tick(&events, || 0);
    assert_eq!(app.animation_frame, 1);
    assert!(app.workers.is_empty());
    assert_eq!(
        messages(&mut app),
        vec![
            "one をプロビジョニングしました (workflow: f, steps: 3)",
            "one: e",
            "Worker renamed: 'one' → 'uno'",
            "エラー: bad",
            "エラー: worse",
            "gone",
        ]
    );
    assert_eq!(app.log_messages[0].as_str(), "[1970-01-01T00:00:00Z][one] one をプロビジョニングしました (workflow: f, steps: 3)");
}

#[test]
fn the_frame_starts_over() {
    let mut app = app();
    app.animation_frame = usize::MAX;
    app.on_tick(&vec![], || 0);
    assert_eq!(app.animation_frame, 0);
}

#[test]
fn the_action_log_keeps_its_most_recent_lines() {
    let mut app = app();
    for i in 0..70 {
        app.push_log(format!("{}", i), 0);
    }
    assert_eq!(app.log_messages.len(), 64);
    assert!(app.log_messages[0].ends_with("] 6"));
    app.handle_key(with(KeyCode::Char('C'), true, false), 0);
    assert_eq!(app.log_messages.len(), 5);
    assert!(app.log_messages[0].ends_with("] 66"));
}

#[test]
fn the_log_is_scrolled() {
    let mut app = app_with_workers();
    for i in 0..30 {
        app.add_worker_log(WorkerId(1), format!("line {}", i));
    }
    press(&mut app, KeyCode::Char('l'));
    press(&mut app, KeyCode::Tab);
    assert_eq!(app.log_view_mode, LogViewMode::Overview);
    press(&mut app, KeyCode::BackTab);
    assert_eq!(app.log_view_mode, LogViewMode::Raw);
    press(&mut app, KeyCode::Esc);
    assert_eq!(app.log_view_mode, LogViewMode::Overview);
    press(&mut app, KeyCode::End);
    assert_eq!(app.log_scroll, 29);
    press(&mut app, KeyCode::PageUp);
    assert_eq!(app.log_scroll, 19);
    assert!(!app.auto_scroll_logs);
    press(&mut app, KeyCode::PageDown);
    assert_eq!(app.log_scroll, 29);
    assert!(app.auto_scroll_logs);
    press(&mut app, KeyCode::Home);
    assert_eq!(app.log_scroll, 0);
    app.handle_key(with(KeyCode::Char('A'), true, false), 0);
    assert!(app.auto_scroll_logs);
    app.handle_event(WorkerEvent::Log { id: WorkerId(1), line: "more".to_string() }, 0);
    assert_eq!(app.log_scroll, 30);
    press(&mut app, KeyCode::Char('l'));
    assert!(!app.show_logs);
}

#[test]
fn steps_are_looked_into() {
    let mut app = app_with_workers();
    for i in 0..2 {
        app.add_worker_log(WorkerId(1), format!("[STEP_START:{}:S]", i));
        app.add_worker_log(WorkerId(1), "[STEP_END:Success]".to_string());
    }
    press(&mut app, KeyCode::Char('l'));
    press(&mut app, KeyCode::Down);
    press(&mut app, KeyCode::Down);
    assert_eq!(app.selected_step, 1);
    press(&mut app, KeyCode::Enter);
    assert_eq!(app.log_view_mode, LogViewMode::Detail);
    press(&mut app, KeyCode::Tab);
    assert_eq!(app.log_view_mode, LogViewMode::Raw);
    press(&mut app, KeyCode::Tab);
    assert_eq!(app.log_view_mode, LogViewMode::Overview);
    press(&mut app, KeyCode::Up);
    assert_eq!(app.selected_step, 0);
}

#[test]
fn session_histories_are_shown() {
    let mut app = app_with_workers();
    press(&mut app, KeyCode::Char('s'));
    press(&mut app, KeyCode::Down);
    press(&mut app, KeyCode::Down);
    press(&mut app, KeyCode::Up);
    assert_eq!(app.session_history_scroll, 1);
    press(&mut app, KeyCode::Esc);
    assert!(!app.show_session_history);
    press(&mut app, KeyCode::Char('s'));
    assert_eq!(app.session_history_scroll, 0);
}

#[test]
fn sessions_are_selected_and_q_closes_them() {
    let mut app = app_with_workers();
    app.set_worker_session_histories(WorkerId(1), vec![history("a"), history("b")]);
    app.set_worker_session_histories(WorkerId(9), vec![history("c")]);
    press(&mut app, KeyCode::Char('s'));
    press(&mut app, KeyCode::Char('k'));
    assert_eq!(app.selected_session, 0);
    press(&mut app, KeyCode::Char('j'));
    press(&mut app, KeyCode::Char('j'));
    assert_eq!(app.selected_session, 1);
    assert_eq!(app.session_history_scroll, 0);
    assert_eq!(app.selected, 0);
    press(&mut app, KeyCode::Char('k'));
    assert_eq!(app.selected_session, 0);
    assert!(!press(&mut app, KeyCode::Char('q')));
    assert!(!app.show_session_history);
    assert!(press(&mut app, KeyCode::Char('q')));
}

#[test]
fn the_sessions_of_the_selected_worker_are_drawn() {
    let mut app = app_with_workers();
    app.set_worker_session_histories(WorkerId(1), vec![history("a"), history("b")]);
    press(&mut app, KeyCode::Char('s'));
    let lines = |app: &App| match app.render(Rect::new(0, 0, 100, 50)).remove(3) {
        Widget::Panel(panel) => panel.lines.len(),
        Widget::Grid(_) => panic!("expected a panel"),
    };
    let both = lines(&app);
    app.set_worker_session_histories(WorkerId(1), vec![history("a")]);
    assert!(lines(&app) < both);
}

fn prompt_of(app: &App) -> (String, usize) {
    match &app.input_mode {
        Some(InputMode::FreePrompt { buffer, cursor, .. }) => (buffer.clone(), *cursor),
        _ => panic!("expected a prompt"),
    }
}

#[test]
fn ctrl_j_puts_a_newline_into_a_prompt() {
    let mut app = app_with_workers();
    press(&mut app, KeyCode::Char('i'));
    press(&mut app, KeyCode::Char('a'));
    assert!(!app.handle_key(with(KeyCode::Char('j'), false, true), 0));
    assert_eq!(prompt_of(&app), ("a\n".to_string(), 2));
    press(&mut app, KeyCode::Char('j'));
    assert_eq!(prompt_of(&app), ("a\nj".to_string(), 3));
}

#[test]
fn the_cursor_moves_in_a_prompt() {
    let mut app = app_with_workers();
    press(&mut app, KeyCode::Char('i'));
    type_text(&mut app, "abc");
    press(&mut app, KeyCode::Left);
    press(&mut app, KeyCode::Char('x'));
    assert_eq!(prompt_of(&app), ("abxc".to_string(), 3));
    press(&mut app, KeyCode::Backspace);
    assert_eq!(prompt_of(&app), ("abc".to_string(), 2));
    press(&mut app, KeyCode::Home);
    press(&mut app, KeyCode::Backspace);
    press(&mut app, KeyCode::Char('あ'));
    assert_eq!(prompt_of(&app), ("あabc".to_string(), 1));
    press(&mut app, KeyCode::End);
    press(&mut app, KeyCode::Right);
    assert_eq!(prompt_of(&app), ("あabc".to_string(), 4));
    app.handle_key(with(KeyCode::Char('j'), false, true), 0);
    press(&mut app, KeyCode::Char('z'));
    press(&mut app, KeyCode::Up);
    assert_eq!(prompt_of(&app).1, 1);
    press(&mut app, KeyCode::Up);
    assert_eq!(prompt_of(&app).1, 1);
    press(&mut app, KeyCode::End);
    assert_eq!(prompt_of(&app).1, 4);
    press(&mut app, KeyCode::Down);
    assert_eq!(prompt_of(&app).1, 6);
    press(&mut app, KeyCode::Down);
    press(&mut app, KeyCode::Home);
    assert_eq!(prompt_of(&app).1, 5);
    press(&mut app, KeyCode::Tab);
    assert_eq!(prompt_of(&app), ("あabc\n\tz".to_string(), 6));
}

#[test]
fn the_cursor_moves_in_a_name() {
    let mut app = app_with_workers();
    press(&mut app, KeyCode::Char('n'));
    type_text(&mut app, "ac");
    press(&mut app, KeyCode::Left);
    press(&mut app, KeyCode::Char('b'));
    match &app.input_mode {
        Some(InputMode::RenameWorker { buffer, cursor, .. }) => {
            assert_eq!((buffer.as_str(), *cursor), ("abc", 2));
        }
        _ => panic!("expected a name"),
    }
    press(&mut app, KeyCode::Esc);
    press(&mut app, KeyCode::Char('c'));
    press(&mut app, KeyCode::Enter);
    type_text(&mut app, "b");
    press(&mut app, KeyCode::Home);
    press(&mut app, KeyCode::Char('a'));
    match &app.input_mode {
        Some(InputMode::NameInput { buffer, cursor, .. }) => {
            assert_eq!((buffer.as_str(), *cursor), ("ab", 1));
        }
        _ => panic!("expected a name"),
    }
}

#[test]
fn the_dashboard_is_drawn_from_back_to_front() {
    let mut app = app_with_workers();
    let screen = Rect::new(0, 0, 100, 50);
    assert_eq!(app.render(screen).len(), 3);
    press(&mut app, KeyCode::Char('l'));
    press(&mut app, KeyCode::Char('h'));
    press(&mut app, KeyCode::Char('s'));
    press(&mut app, KeyCode::Char('i'));
    let widgets = app.render(screen);
    let titles: Vec<String> = widgets
        .iter()
        .map(|widget| match widget {
            Widget::Panel(panel) => panel.title.clone(),
            Widget::Grid(grid) => grid.title.clone(),
        })
        .collect();
    assert_eq!(titles[0], "Overview");
    assert_eq!(titles[1], "Workers");
    assert_eq!(titles[2], "Controls");
    assert!(titles[3].starts_with("Overview [Auto-scroll: ON]"));
    assert_eq!(titles[4..].to_vec(), vec!["Help", "Session History", "Free Prompt"]);
    match &widgets[4] {
        Widget::Panel(panel) => {
            assert_eq!((panel.area.width, panel.area.height), (60, 25));
        }
        Widget::Grid(_) => panic!("expected a panel"),
    }
}

#[test]
fn a_run_in_the_terminal_starts_and_ends() {
    let mut app = app_with_workers();
    app.handle_key(with(KeyCode::Char('I'), true, false), 0);
    let request = app.take_interactive().unwrap();
    assert_eq!(request.worker_name, "one");
    assert_eq!(request.worktree_path, "/repo/.worktrees/w");
    assert!(interactive_args(&request).is_empty());
    assert!(app.take_interactive().is_none());
    let kept = app.interactive_returned(
        "one",
        &Some(history("s9")),
        Some(record("one")),
        &Some(" M a.rs\n".to_string()),
        0,
    );
    let kept = kept.unwrap();
    assert_eq!(kept.session_history.len(), 1);
    assert_eq!(kept.snapshot.session_id, Some("s9".to_string()));
    assert_eq!(messages(&mut app), vec!["インタラクティブセッションから復帰しました (one)"]);
    assert!(app.workers[0].logs.contains(&"   M a.rs".to_string()));
    app.handle_key(with(KeyCode::Char('I'), true, false), 0);
    let request = app.take_interactive().unwrap();
    assert_eq!(interactive_args(&request), vec!["--continue"]);
    let none = app.interactive_returned("one", &Some(history("s9")), None, &None, 0);
    assert!(none.is_none());
}

#[test]
fn sessions_without_a_number_are_not_taken_up_again() {
    assert!(is_resumable("s"));
    assert!(!is_resumable(""));
    assert!(!is_resumable("unknown"));
    let mut app = app_with_workers();
    let kept =
        app.interactive_returned("one", &Some(history("unknown")), Some(record("one")), &None, 0);
    assert_eq!(kept.unwrap().snapshot.session_id, None);
    assert_eq!(app.workers[0].snapshot.session_id, None);
}

#[test]
fn ten_changed_files_are_listed() {
    assert_eq!(lines_on_return("Tool Suite", &None).len(), 11);
    assert_eq!(lines_on_return("Tool Suite", &None)[1], "🎯 Interactive Tool Suite Session 完了");
    assert_eq!(lines_on_return("Tool Suite", &Some(" \n".to_string())).len(), 11);
    let many: String = (0..12).map(|i| format!(" M {}\n", i)).collect::<Vec<_>>().concat();
    let lines = lines_on_return("Tool Suite", &Some(many));
    assert_eq!(lines.len(), 24);
    assert_eq!(lines[11], "📝 変更されたファイル:");
    assert_eq!(lines[12], "   M 0");
    assert_eq!(lines[22], "  ... あと 2 件");
    assert_eq!(lines[23], "");
}
