use gensui::clock::timestamp;
use gensui::json::{parse, Json};
use gensui::product::Product;
use gensui::session_import::{
    get_claude_sessions_dir, get_latest_session_file, import_session, parse_session_file,
    SessionFile, SessionImportError,
};
use gensui::state::SessionEvent;

fn file(path: &str, is_file: bool, modified: Option<i128>) -> SessionFile {
    SessionFile { path: path.to_string(), is_file, modified }
}

fn product() -> Product {
    Product {
        name: "Tool Suite".to_string(),
        short_name: "Tool".to_string(),
        command: "tool".to_string(),
        directory: ".tool".to_string(),
    }
}

#[test]
fn test_get_claude_sessions_dir() {
    let result = get_claude_sessions_dir(Some("/home/user".to_string()), None, None, &product());
    assert!(result.is_ok());
}

#[test]
fn sessions_are_looked_for_under_home_or_configuration() {
    let home = Some("/home/user".to_string());
    assert_eq!(
        get_claude_sessions_dir(home.clone(), None, None, &product()).unwrap(),
        "/home/user/.tool/sessions"
    );
    assert_eq!(
        get_claude_sessions_dir(None, Some("/profile".to_string()), None, &product()).unwrap(),
        "/profile/.tool/sessions"
    );
    assert_eq!(
        get_claude_sessions_dir(home, None, Some("/custom".to_string()), &product()).unwrap(),
        "/custom/sessions"
    );
    match get_claude_sessions_dir(None, None, Some("/custom".to_string()), &product()) {
        Err(e) => {
            assert!(matches!(e, SessionImportError::NoHome));
            assert_eq!(e.message(), "HOME or USERPROFILE environment variable not set");
        }
        Ok(_) => panic!("no home directory"),
    }
}

#[test]
fn the_latest_session_file_is_taken() {
    let files = vec![
        file("/s/a.json", true, Some(10)),
        file("/s/b.json", true, Some(30)),
        file("/s/c.json", true, Some(30)),
        file("/s/d.txt", true, Some(99)),
        file("/s/e.json", false, Some(99)),
        file("/s/.json", true, Some(99)),
        file("/s/f.json", true, None),
    ];
    assert_eq!(get_latest_session_file(&files, None), Some("/s/b.json".to_string()));
    assert_eq!(get_latest_session_file(&files, Some(29)), Some("/s/b.json".to_string()));
    assert_eq!(get_latest_session_file(&files, Some(30)), None);
    assert_eq!(get_latest_session_file(&vec![], None), None);
}

#[test]
fn a_session_file_is_read() {
    let content = r#"{
        "id": "abc",
        "created_at": "2024-01-01T00:00:00Z",
        "updated_at": "2024-01-01T01:00:00Z",
        "messages": [
            {"role": "user", "content": [{"type": "image"}, {"type": "text", "text": "Do it"}]},
            {"role": "assistant", "timestamp": "2024-01-01T00:30:00Z", "content": [
                {"type": "text", "text": "Sure"},
                {"type": "text", "text": "  "},
                {"type": "thinking", "thinking": "Hm"},
                {"type": "tool_use", "name": "Write", "input": {"file_path": "a.rs"}},
                {"type": "tool_use", "name": "Edit", "input": {"file_path": "a.rs"}},
                {"type": "tool_use", "name": "Read", "input": {"file_path": "b.rs"}},
                {"type": "tool_use"}
            ]},
            {"role": "user", "content": "More"}
        ]
    }"#;
    let history = parse_session_file("/s/a.json", content, 0).unwrap();
    assert_eq!(history.session_id, "abc");
    assert_eq!(history.started_at, "2024-01-01T00:00:00Z");
    assert_eq!(history.ended_at, Some("2024-01-01T01:00:00Z".to_string()));
    assert_eq!(history.prompt, "Do it");
    assert_eq!(history.total_tool_uses, 4);
    assert_eq!(history.files_modified, vec!["a.rs"]);
    assert_eq!(history.events.len(), 6);
    match &history.events[0] {
        SessionEvent::AssistantMessage { text, timestamp } => {
            assert_eq!(text, "Sure");
            assert_eq!(timestamp, "2024-01-01T00:30:00Z");
        }
        _ => panic!("expected a message"),
    }
    match &history.events[2] {
        SessionEvent::ToolUse { name, input, .. } => {
            assert_eq!(name, "Write");
            let path = input.as_ref().and_then(|value| value.get_str("file_path"));
            assert_eq!(path, Some("a.rs"));
        }
        _ => panic!("expected a tool"),
    }
    match &history.events[5] {
        SessionEvent::ToolUse { name, input, .. } => {
            assert_eq!(name, "unknown");
            assert!(input.is_none());
        }
        _ => panic!("expected a tool"),
    }
}

#[test]
fn what_a_session_file_leaves_out_is_filled_in() {
    let history = parse_session_file("/s/a.json", "{}", 0).unwrap();
    assert_eq!(history.session_id, "unknown");
    assert_eq!(history.started_at, "1970-01-01T00:00:00Z");
    assert_eq!(history.ended_at, None);
    assert_eq!(history.prompt, "(Interactive session)");
    assert_eq!(history.total_tool_uses, 0);
    match parse_session_file("/s/a.json", "{", 0) {
        Err(e) => assert_eq!(e.message(), "Failed to parse session file: /s/a.json"),
        Ok(_) => panic!("no JSON"),
    }
}

#[test]
fn a_session_can_be_built_from_a_tree() {
    let tree = Json::Object(vec![
        ("ended_at".to_string(), Json::Text("later".to_string())),
        ("id".to_string(), Json::Text("x".to_string())),
    ]);
    let history = import_session(&tree, 1_000_000_000);
    assert_eq!(history.session_id, "x");
    assert_eq!(history.started_at, "1970-01-01T00:00:01Z");
    assert_eq!(history.ended_at, Some("later".to_string()));
}

#[test]
fn points_in_time_are_written_out() {
    assert_eq!(timestamp(0), "1970-01-01T00:00:00Z");
    assert_eq!(timestamp(1_704_067_200_000_000_000), "2024-01-01T00:00:00Z");
    assert_eq!(timestamp(1_704_067_200_500_000_000), "2024-01-01T00:00:00.5Z");
    assert_eq!(timestamp(i128::MAX), "unknown");
}

#[test]
fn json_is_parsed_into_a_tree() {
    let tree = parse(r#"{"b": [1, true, null], "a": "text", "n": 1.5}"#).unwrap();
    assert_eq!(tree.get_str("a"), Some("text"));
    let items = tree.get("b").and_then(|value| value.as_array()).unwrap();
    assert_eq!(items.len(), 3);
    assert_eq!(items[1].as_bool(), Some(true));
    assert!(matches!(items[2], Json::Null));
    assert!(matches!(&items[0], Json::Number(n) if n == "1"));
    assert!(matches!(tree.get("n"), Some(Json::Number(n)) if n == "1.5"));
    assert!(tree.get("c").is_none());
    assert!(parse("[1, ").is_none());
    assert!(parse("").is_none());
}
