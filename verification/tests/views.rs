use gensui::app::worker_view::WorkerView;
use gensui::state::{SessionEvent, SessionHistory};
use gensui::ui::types::StepStatus;
use gensui::worker::{WorkerId, WorkerSnapshot, WorkerStatus};

fn said(text: &str, minute: &str) -> SessionEvent {
    SessionEvent::AssistantMessage { text: text.to_string(), timestamp: at(minute) }
}

fn thought(content: &str, minute: &str) -> SessionEvent {
    SessionEvent::ThinkingBlock { content: content.to_string(), timestamp: at(minute) }
}

fn used(name: &str, minute: &str) -> SessionEvent {
    SessionEvent::ToolUse { name: name.to_string(), timestamp: at(minute), input: None }
}

fn result(name: &str, output: &str, minute: &str) -> SessionEvent {
    SessionEvent::ToolResult {
        name: name.to_string(),
        timestamp: at(minute),
        output: Some(output.to_string()),
    }
}

fn at(minute: &str) -> String {
    format!("2024-01-01T00:{}:00Z", minute)
}

fn history(
    id: &str,
    prompt: &str,
    end: &str,
    events: Vec<SessionEvent>,
    uses: usize,
    files: Vec<String>,
) -> SessionHistory {
    SessionHistory {
        session_id: id.to_string(),
        started_at: "2024-01-01T00:00:00Z".to_string(),
        ended_at: Some(at(end)),
        prompt: prompt.to_string(),
        events,
        total_tool_uses: uses,
        files_modified: files,
    }
}

fn snapshot() -> WorkerSnapshot {
    WorkerSnapshot {
        id: WorkerId(1),
        name: "w".to_string(),
        issue: None,
        agent: "a".to_string(),
        worktree: ".worktrees/w".to_string(),
        branch: "b".to_string(),
        status: WorkerStatus::Running,
        last_event: "e".to_string(),
        workflow: "f".to_string(),
        total_steps: 1,
        current_step: None,
        session_id: None,
    }
}

#[test]
fn test_convert_session_to_log_entries() {
    let history = history(
        "test-session",
        "Test prompt",
        "10",
        vec![
            said("I'll read the file", "01"),
            used("Read", "02"),
            result("Read", "File contents here\nLine 2", "03"),
            thought("Thinking about the file", "04"),
            used("Write", "05"),
            result("Write", "File written successfully", "06"),
        ],
        2,
        vec!["test.txt".to_string()],
    );
    let entries = WorkerView::convert_session_to_log_entries(&history);
    assert_eq!(entries.len(), 2);
    assert_eq!(entries[0].step_index, 0);
    assert_eq!(entries[0].step_name, "Read");
    assert_eq!(entries[0].prompt_lines, vec!["I'll read the file"]);
    assert_eq!(entries[0].result_lines, vec!["File contents here", "Line 2"]);
    assert_eq!(entries[0].status, StepStatus::Success);
    assert_eq!(entries[1].step_index, 1);
    assert_eq!(entries[1].step_name, "Write");
    assert_eq!(entries[1].thought_lines, vec!["Thinking about the file"]);
    assert_eq!(entries[1].result_lines, vec!["File written successfully"]);
    assert_eq!(entries[1].status, StepStatus::Success);
}

#[test]
fn test_convert_session_with_multiline_text() {
    let history = history(
        "test-session",
        "Test prompt",
        "10",
        vec![
            said("Line 1\nLine 2\nLine 3", "01"),
            used("Bash", "02"),
            result("Bash", "Output line 1\nOutput line 2", "03"),
        ],
        1,
        vec![],
    );
    let entries = WorkerView::convert_session_to_log_entries(&history);
    assert_eq!(entries.len(), 1);
    assert_eq!(entries[0].step_name, "Bash");
    assert_eq!(entries[0].prompt_lines, vec!["Line 1", "Line 2", "Line 3"]);
    assert_eq!(entries[0].result_lines, vec!["Output line 1", "Output line 2"]);
}

#[test]
fn test_convert_session_without_tool_uses() {
    let history = history(
        "test-session-no-tools",
        "Just a conversation",
        "05",
        vec![
            said("I understand your question.", "01"),
            thought("Let me think about this...", "02"),
            said("Here is my answer.", "03"),
        ],
        0,
        vec![],
    );
    let entries = WorkerView::convert_session_to_log_entries(&history);
    assert_eq!(entries.len(), 1);
    assert_eq!(entries[0].step_index, 0);
    assert_eq!(entries[0].step_name, "Session");
    assert_eq!(entries[0].prompt_lines, vec!["I understand your question.", "Here is my answer."]);
    assert_eq!(entries[0].thought_lines, vec!["Let me think about this..."]);
    assert!(entries[0].result_lines.is_empty());
    assert_eq!(entries[0].status, StepStatus::Success);
}

#[test]
fn test_convert_empty_session() {
    let history = history("empty-session", "Empty", "01", vec![], 0, vec![]);
    let entries = WorkerView::convert_session_to_log_entries(&history);
    assert_eq!(entries.len(), 0);
}

#[test]
fn test_convert_session_with_only_system_events() {
    let history = history(
        "system-only-session",
        "System events only",
        "01",
        vec![result("SomeResult", "Result without tool use", "01")],
        0,
        vec![],
    );
    let entries = WorkerView::convert_session_to_log_entries(&history);
    assert_eq!(entries.len(), 0);
}

#[test]
fn a_session_adds_its_steps_to_a_view() {
    let mut view = WorkerView::new(snapshot());
    let history = history("s", "p", "01", vec![used("Read", "01"), used("Write", "02")], 2, vec![]);
    view.add_session_history_logs(&history);
    view.add_session_history_logs(&history);
    assert_eq!(view.structured_logs.len(), 4);
    assert_eq!(view.structured_logs[3].step_name, "Write");
    view.set_session_histories(vec![history]);
    assert_eq!(view.session_histories.len(), 1);
}

#[test]
fn a_view_keeps_the_most_recent_lines_and_every_step() {
    let mut view = WorkerView::new(snapshot());
    for i in 0..100 {
        view.push_log(format!("[STEP_START:{}:Step]", i));
        view.push_log("[STEP_END:Success]".to_string());
    }
    assert_eq!(view.logs.len(), 128);
    assert_eq!(view.structured_logs.len(), 100);
    assert_eq!(view.structured_logs[99].step_index, 99);
    assert_eq!(view.logs[0], "[STEP_START:36:Step]");
}
