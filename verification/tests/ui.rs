use std::collections::VecDeque;

use gensui::state::{ActionLogEntry, SessionEvent, SessionHistory};
use gensui::ui::canvas::{divide, CellContent, Color, Direction, Line, Rect, Share, Style, Widget};
use gensui::ui::helpers::{centered_rect, format_action_log, permission_mode_label, status_color};
use gensui::ui::log_view::{prepare_raw_log_data, render_detail_tab, render_overview_tab};
use gensui::ui::modals::{
    describe_allowed_tools, format_timestamp, render_create_selection_modal,
    render_name_input_modal, render_permission_modal, render_prompt_modal,
    render_rename_worker_modal, render_session_history_modal, render_tool_selection_modal,
    truncate_string,
};
use gensui::ui::render::{help_lines, render_footer, render_header, render_table};
use gensui::ui::types::{tool_def, LogEntry, LogViewMode, StepStatus, AVAILABLE_TOOLS};
use gensui::worker::{
    PermissionDecision, PermissionRequest, WorkerId, WorkerSnapshot, WorkerStatus,
};

fn text_of(line: &Line) -> String {
    line.spans.iter().map(|span| span.content.clone()).collect::<Vec<String>>().concat()
}

fn lines_of(widget: &Widget) -> Vec<String> {
    match widget {
        Widget::Panel(panel) => panel.lines.iter().map(text_of).collect(),
        Widget::Grid(_) => panic!("expected a panel"),
    }
}

fn entry(index: usize) -> LogEntry {
    LogEntry {
        step_index: index,
        step_name: "Test Step".to_string(),
        prompt_lines: vec!["prompt".to_string()],
        result_lines: vec!["result".to_string()],
        thought_lines: vec!["thought".to_string()],
        status: StepStatus::Success,
    }
}

fn snapshot(name: &str, status: WorkerStatus) -> WorkerSnapshot {
    WorkerSnapshot {
        id: WorkerId(1),
        name: name.to_string(),
        issue: None,
        agent: "a".to_string(),
        worktree: ".worktrees/w".to_string(),
        branch: "b".to_string(),
        status,
        last_event: "e".to_string(),
        workflow: "f".to_string(),
        total_steps: 3,
        current_step: None,
        session_id: None,
    }
}

#[test]
fn test_centered_rect() {
    let area = Rect::new(0, 0, 100, 100);
    let centered = centered_rect(50, 50, area);
    assert!(centered.x >= area.x);
    assert!(centered.y >= area.y);
    assert!(centered.width <= area.width);
    assert!(centered.height <= area.height);
    assert_eq!((centered.x, centered.y, centered.width, centered.height), (25, 25, 50, 50));
}

#[test]
fn test_format_action_log_with_worker() {
    let entry = ActionLogEntry {
        timestamp: "2024-01-01T00:00:00Z".to_string(),
        message: "Test message".to_string(),
        worker: Some("worker-1".to_string()),
    };
    let formatted = format_action_log(&entry);
    assert_eq!(formatted, "[2024-01-01T00:00:00Z][worker-1] Test message");
}

#[test]
fn test_format_action_log_without_worker() {
    let entry = ActionLogEntry {
        timestamp: "2024-01-01T00:00:00Z".to_string(),
        message: "Test message".to_string(),
        worker: None,
    };
    let formatted = format_action_log(&entry);
    assert_eq!(formatted, "[2024-01-01T00:00:00Z] Test message");
}

#[test]
fn test_status_color() {
    assert_eq!(status_color(WorkerStatus::Running), Color::Green);
    assert_eq!(status_color(WorkerStatus::Paused), Color::Yellow);
    assert_eq!(status_color(WorkerStatus::Failed), Color::Red);
    assert_eq!(status_color(WorkerStatus::Idle), Color::Gray);
    assert_eq!(status_color(WorkerStatus::Archived), Color::Blue);
}

#[test]
fn test_permission_mode_label() {
    assert_eq!(permission_mode_label(&None), "制限なしモード");
    assert_eq!(permission_mode_label(&Some("plan".to_string())), "プランモード");
    assert_eq!(permission_mode_label(&Some("acceptEdits".to_string())), "編集承認モード");
    assert_eq!(permission_mode_label(&Some("bypassPermissions".to_string())), "制限なしモード");
    assert_eq!(permission_mode_label(&Some("unknown".to_string())), "unknown");
}

#[test]
fn test_prepare_raw_log_data_empty() {
    let global_logs = VecDeque::new();
    let data = prepare_raw_log_data(None, &global_logs, 0, true);
    assert!(data.title.contains("Action Logs"));
    assert!(data.title.contains("[Auto-scroll: ON]"));
    assert_eq!(data.lines.len(), 1);
}

#[test]
fn test_prepare_raw_log_data_with_logs() {
    let mut global_logs = VecDeque::new();
    global_logs.push_back("Log line 1".to_string());
    global_logs.push_back("Log line 2".to_string());
    let data = prepare_raw_log_data(None, &global_logs, 0, false);
    assert!(data.title.contains("Action Logs"));
    assert!(data.title.contains("[Auto-scroll: OFF]"));
    assert_eq!(data.lines.len(), 2);
}

#[test]
fn test_prepare_raw_log_data_with_scroll() {
    let mut global_logs = VecDeque::new();
    for i in 0..10 {
        global_logs.push_back(format!("Log line {}", i));
    }
    let data = prepare_raw_log_data(None, &global_logs, 5, true);
    assert!(data.lines.len() <= 5);
    assert!(data.title.contains("line 6/10"));
    assert_eq!(text_of(&data.lines[0]), "Log line 5");
}

#[test]
fn test_describe_allowed_tools_none() {
    assert_eq!(describe_allowed_tools(&None), "制限なし");
}

#[test]
fn test_describe_allowed_tools_empty() {
    assert_eq!(describe_allowed_tools(&Some(vec![])), "なし");
}

#[test]
fn test_describe_allowed_tools_with_tools() {
    let tools = vec!["Read".to_string(), "Write".to_string()];
    assert_eq!(describe_allowed_tools(&Some(tools)), "Read, Write");
}

#[test]
fn test_help_lines_count() {
    let lines = help_lines("Tool Suite");
    assert!(lines.len() > 10);
}

#[test]
fn test_help_lines_contains_shortcuts() {
    let lines = help_lines("Tool Suite");
    let text = lines.iter().map(|line| format!("{:?}", line)).collect::<Vec<_>>().join("\n");
    assert!(text.contains("終了"));
    assert!(text.contains("ワーカーを作成"));
    assert!(text.contains("削除"));
}

#[test]
fn test_log_view_mode_equality() {
    assert_eq!(LogViewMode::Overview, LogViewMode::Overview);
    assert_ne!(LogViewMode::Overview, LogViewMode::Detail);
    assert_ne!(LogViewMode::Detail, LogViewMode::Raw);
}

#[test]
fn test_step_status_equality() {
    assert_eq!(StepStatus::Running, StepStatus::Running);
    assert_ne!(StepStatus::Success, StepStatus::Failed);
}

#[test]
fn test_available_tools_count() {
    assert_eq!(AVAILABLE_TOOLS.len(), 8);
}

#[test]
fn test_available_tools_names() {
    let tool_names: Vec<&str> = (0..AVAILABLE_TOOLS.len()).map(|i| tool_def(i).name).collect();
    assert!(tool_names.contains(&"Read"));
    assert!(tool_names.contains(&"Write"));
    assert!(tool_names.contains(&"Edit"));
    assert!(tool_names.contains(&"Bash"));
}

#[test]
fn test_log_entry_creation() {
    let entry = entry(1);
    assert_eq!(entry.step_index, 1);
    assert_eq!(entry.step_name, "Test Step");
    assert_eq!(entry.status, StepStatus::Success);
}

#[test]
fn areas_are_divided_among_their_shares() {
    let area = Rect::new(2, 3, 80, 40);
    let shares = vec![Share::Length(3), Share::Min(8), Share::Length(5)];
    let parts = divide(Direction::Vertical, area, &shares);
    assert_eq!(parts.len(), 3);
    assert_eq!((parts[0].y, parts[0].height), (3, 3));
    assert_eq!((parts[1].y, parts[1].height), (6, 32));
    assert_eq!((parts[2].y, parts[2].height), (38, 5));
    assert!(parts.iter().all(|part| part.x == 2 && part.width == 80));
}

#[test]
fn areas_end_at_the_edge_of_the_numbers() {
    let area = Rect::new(u16::MAX - 1, 0, 10, 10);
    assert_eq!(area.width, 1);
}

/// The pieces of the lines of a panel, each with whether it is set off.
fn pieces_of(widget: Widget) -> Vec<Vec<(String, bool)>> {
    match widget {
        Widget::Panel(panel) => panel
            .lines
            .into_iter()
            .map(|line| {
                line.spans.into_iter().map(|span| (span.content, span.style.reversed)).collect()
            })
            .collect(),
        Widget::Grid(_) => panic!("expected a panel"),
    }
}

fn row(pieces: &[(&str, bool)]) -> Vec<(String, bool)> {
    pieces.iter().map(|(text, set_off)| (text.to_string(), *set_off)).collect()
}

#[test]
fn a_prompt_is_shown_line_by_line_with_the_cursor() {
    let area = Rect::new(0, 0, 80, 20);
    let lines = pieces_of(render_prompt_modal(area, "ab\ncd", 1, &None, "Tool Suite"));
    assert_eq!(lines.len(), 7);
    assert_eq!(lines[2], row(&[("a", false), ("b", true), ("", false)]));
    assert_eq!(lines[3], row(&[("cd", false)]));
    assert_eq!(lines[6], row(&[("Tool Suiteがheadlessモードで実行されます", false)]));
    let end = pieces_of(render_prompt_modal(area, "ab\n", 3, &None, "Tool Suite"));
    assert_eq!(end[2], row(&[("ab", false)]));
    assert_eq!(end[3], row(&[("", false), (" ", true), ("", false)]));
    let at_break = pieces_of(render_prompt_modal(area, "ab\ncd", 2, &None, "Tool Suite"));
    assert_eq!(at_break[2], row(&[("ab", false), (" ", true), ("", false)]));
    assert_eq!(at_break[3], row(&[("cd", false)]));
}

#[test]
fn a_name_is_shown_with_the_cursor() {
    let area = Rect::new(0, 0, 80, 20);
    let new = pieces_of(render_name_input_modal(area, "abc", 0, &None));
    assert_eq!(new[4], row(&[("名前: ", false), ("", false), ("a", true), ("bc", false)]));
    let other = pieces_of(render_rename_worker_modal(area, "", 0, "old"));
    assert_eq!(other[4], row(&[("新しい名前: ", false), ("", false), (" ", true), ("", false)]));
}

#[test]
fn the_help_speaks_of_the_product() {
    let lines = help_lines("Tool Suite");
    assert!(lines.iter().any(|line| {
        text_of(line) == "Shift+I – インタラクティブTool Suite起動（権限を手動承認可能）"
    }));
}

#[test]
fn texts_are_cut_by_characters() {
    assert_eq!(truncate_string("short", 10), "short");
    assert_eq!(truncate_string("あいうえおかきくけこさ", 10).chars().count(), 10);
    assert_eq!(truncate_string("abcdefghijk", 10), "abcdefg...");
    assert_eq!(truncate_string("abcd", 3), "...");
    assert_eq!(truncate_string("abcd", 2), "..");
    assert_eq!(truncate_string("ab", 2), "ab");
    assert_eq!(truncate_string("abcd", 0), "");
    assert_eq!(format_timestamp("2024-01-01T12:34:56Z"), "12:34:56Z");
    assert_eq!(format_timestamp("2024-01-01T12:34:56.789Z"), "12:34:56");
    assert_eq!(format_timestamp("unknown"), "unknown");
}

#[test]
fn the_header_counts_the_workers() {
    let header = render_header(Rect::new(0, 0, 80, 3), 2, "All", "Default");
    assert_eq!(
        lines_of(&header),
        vec!["Gensui – multi-worker dashboard  Workers: 2  Filter: All  Workflow: Default"]
    );
    let footer = render_footer(Rect::new(0, 0, 80, 5), "Default");
    assert!(lines_of(&footer)[1].ends_with("Active workflow: Default"));
}

#[test]
fn the_table_animates_running_workers() {
    let idle = snapshot("idle", WorkerStatus::Idle);
    let running = snapshot("run", WorkerStatus::Running);
    let workers = vec![(0, &idle), (1, &running)];
    let table = render_table(Rect::new(0, 0, 80, 10), &workers, 0, 0);
    match table {
        Widget::Grid(grid) => {
            assert_eq!(grid.rows.len(), 2);
            match &grid.rows[0].cells[0].content {
                CellContent::Text(name) => assert_eq!(name, "idle"),
                CellContent::Styled(_) => panic!("an idle worker is plain"),
            }
            match &grid.rows[1].cells[0].content {
                CellContent::Text(_) => panic!("a running worker is animated"),
                CellContent::Styled(line) => {
                    assert_eq!(text_of(line), "run");
                    assert_eq!(line.spans.len(), 3);
                }
            }
        }
        Widget::Panel(_) => panic!("expected a table"),
    }
}

#[test]
fn the_overview_lists_the_steps() {
    let screen = Rect::new(0, 0, 100, 50);
    let empty = render_overview_tab(screen, &vec![], 0, true);
    assert_eq!(lines_of(&empty).len(), 1);
    match render_overview_tab(screen, &vec![entry(0), entry(1)], 7, false) {
        Widget::Grid(grid) => {
            assert_eq!(grid.rows.len(), 2);
            assert_eq!(grid.rows[0].style, Style::new());
            assert_eq!(grid.rows[1].style, Style::new().bg(Color::DarkGray));
        }
        Widget::Panel(_) => panic!("expected a table"),
    }
    let detail = render_detail_tab(screen, &entry(3), 0, true);
    assert_eq!(lines_of(&detail)[0], "Step #3: Test Step");
    let scrolled = render_detail_tab(screen, &entry(3), 3, true);
    assert_eq!(lines_of(&scrolled)[0], "prompt");
}

#[test]
fn windows_show_what_is_selected() {
    let area = Rect::new(0, 0, 40, 20);
    let create = lines_of(&render_create_selection_modal(area, 1, "Default"));
    assert!(create.iter().any(|line| line.contains("Default")));
    let mut tools = vec![false; 8];
    tools[1] = true;
    let list = lines_of(&render_tool_selection_modal(area, &tools, 0, "acceptEdits"));
    assert!(list.iter().any(|line| line.contains("[✓] Write")));
    assert!(list.iter().any(|line| line.contains("[ ] Read")));
    let request = PermissionRequest {
        request_id: 7,
        step_name: "Step".to_string(),
        description: None,
        permission_mode: None,
        allowed_tools: Some(vec!["Read".to_string()]),
    };
    let shown = lines_of(&render_permission_modal(area, "w", &request, &PermissionDecision::Deny));
    assert!(shown.iter().any(|line| line.contains("Step")));
    assert!(shown.iter().any(|line| line.contains("Read")));
}

#[test]
fn session_histories_are_scrolled() {
    let area = Rect::new(0, 0, 4, 20);
    let session = SessionHistory {
        session_id: "s".to_string(),
        started_at: "2024-01-01T12:34:56Z".to_string(),
        ended_at: None,
        prompt: "p".to_string(),
        events: vec![SessionEvent::Error {
            message: "broken".to_string(),
            timestamp: "2024-01-01T12:34:57Z".to_string(),
        }],
        total_tool_uses: 0,
        files_modified: vec!["a.rs".to_string()],
    };
    let sessions = vec![session];
    let all = lines_of(&render_session_history_modal(area, &sessions, 0, 0));
    let rest = lines_of(&render_session_history_modal(area, &sessions, 0, 2));
    assert_eq!(all[2..].to_vec(), rest);
    assert_eq!(all[3], "━━━━");
    assert!(all.iter().any(|line| line.contains("broken")));
    assert!(all.iter().any(|line| line.contains("a.rs")));
}
