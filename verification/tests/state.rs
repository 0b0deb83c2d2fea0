use gensui::config::Workflow;
use gensui::paths::{join, relative_to};
use gensui::state::{
    first_id, ActionLogEntry, ManagerState, StateError, StateStore, WorkerRecord,
    WorkerSnapshotData,
};

fn record(name: &str) -> WorkerRecord {
    WorkerRecord {
        snapshot: WorkerSnapshotData {
            id: 1,
            name: name.to_string(),
            issue: None,
            agent: "a".to_string(),
            worktree: ".worktrees/w".to_string(),
            branch: "b".to_string(),
            status: "Idle".to_string(),
            last_event: "e".to_string(),
            workflow: "f".to_string(),
            total_steps: 0,
            current_step: None,
            session_id: None,
        },
        logs: vec![],
        workflow: Workflow { name: "f".to_string(), description: None, steps: vec![] },
        completed_steps: 0,
        session_history: vec![],
    }
}

fn entry(message: &str) -> ActionLogEntry {
    ActionLogEntry {
        timestamp: "t".to_string(),
        message: message.to_string(),
        worker: None,
    }
}

#[test]
fn files_have_their_places() {
    let store = StateStore::new("/repo/.gensui/state".to_string());
    assert_eq!(store.base(), "/repo/.gensui/state");
    assert_eq!(store.manager_state_path(), "/repo/.gensui/state/manager.json");
    assert_eq!(store.action_log_path(), "/repo/.gensui/state/action_log.jsonl");
    assert_eq!(store.workers_dir(), "/repo/.gensui/state/workers");
    assert_eq!(store.worker_path("w"), "/repo/.gensui/state/workers/w.json");
    assert_ne!(store.worker_path("w"), store.worker_path("v"));
}

#[test]
fn workers_come_in_the_order_of_their_names() {
    let store = StateStore::new("/s".to_string());
    let read = vec![record("b"), record("a"), record("認証"), record("B")];
    let names: Vec<String> =
        store.load_workers(&read).into_iter().map(|record| record.snapshot.name).collect();
    assert_eq!(names, vec!["B", "a", "b", "認証"]);
}

#[test]
fn the_most_recent_entries_of_the_action_log_are_kept() {
    let store = StateStore::new("/s".to_string());
    let read = vec![Some(entry("1")), None, Some(entry("2")), Some(entry("3"))];
    let messages: Vec<String> =
        store.load_action_log(&read, 2).into_iter().map(|entry| entry.message).collect();
    assert_eq!(messages, vec!["2", "3"]);
    assert_eq!(store.load_action_log(&read, 64).len(), 3);
    assert_eq!(store.load_action_log(&read, 0).len(), 0);
}

#[test]
fn the_action_log_gives_back_what_was_appended() {
    let store = StateStore::new("/s".to_string());
    let mut log = String::new();
    for text in ["{\"a\":1}", "{\"b\":2}", "[3]"] {
        log.push_str(&store.action_log_line(text));
    }
    assert_eq!(log, "{\"a\":1}\n{\"b\":2}\n[3]\n");
    assert_eq!(store.action_log_texts(&log), vec!["{\"a\":1}", "{\"b\":2}", "[3]"]);
    assert_eq!(store.action_log_texts("\n  \n[3]\r\n[4]"), vec!["[3]", "[4]"]);
}

#[test]
fn a_file_is_renamed_only_to_a_free_name() {
    let store = StateStore::new("/s".to_string());
    assert_eq!(
        store.rename_worker("a", "b", true, false).unwrap(),
        ("/s/workers/a.json".to_string(), "/s/workers/b.json".to_string())
    );
    match store.rename_worker("a", "b", false, true) {
        Err(e) => {
            assert!(matches!(e, StateError::NotFound(_)));
            assert_eq!(e.message(), "Worker state file /s/workers/a.json not found");
        }
        Ok(_) => panic!("there is no file"),
    }
    match store.rename_worker("a", "b", true, true) {
        Err(e) => {
            assert!(matches!(e, StateError::AlreadyExists(_)));
            assert_eq!(e.message(), "Worker state file /s/workers/b.json already exists");
        }
        Ok(_) => panic!("the name is taken"),
    }
}

#[test]
fn numbers_start_at_one() {
    assert_eq!(first_id(None), 1);
    assert_eq!(first_id(Some(ManagerState { next_id: 0 })), 1);
    assert_eq!(first_id(Some(ManagerState { next_id: 7 })), 7);
}

#[test]
fn paths_are_joined_and_shortened() {
    assert_eq!(join("/repo", "a/b"), "/repo/a/b");
    assert_eq!(join("/repo/", "a"), "/repo/a");
    assert_eq!(join("/repo", "/a"), "/a");
    assert_eq!(relative_to("/repo/.worktrees/w", "/repo"), ".worktrees/w");
    assert_eq!(relative_to("/elsewhere/w", "/repo"), "/elsewhere/w");
    assert_eq!(relative_to("/repository/w", "/repo"), "/repository/w");
}
