use gensui::config::{
    default_sandbox_mode, find_workflow, sandbox_enabled, ClaudeStep, Config, Workflow,
};

fn claude_step(sandbox_mode: Option<bool>) -> ClaudeStep {
    ClaudeStep {
        prompt: "test prompt".to_string(),
        model: None,
        allowed_tools: None,
        permission_mode: None,
        extra_args: None,
        sandbox_mode,
    }
}

fn workflow(name: &str) -> Workflow {
    Workflow { name: name.to_string(), description: None, steps: Vec::new() }
}

#[test]
fn test_default_sandbox_mode_is_true() {
    assert_eq!(default_sandbox_mode(), true);
}

#[test]
fn test_config_default_has_sandbox_enabled() {
    let config = Config::default();
    assert_eq!(config.default_sandbox_mode, true);
}

#[test]
fn test_sandbox_mode_inheritance() {
    let global_default = true;
    let step_none: Option<bool> = None;
    assert_eq!(step_none.unwrap_or(global_default), true);
    assert_eq!(sandbox_enabled(&claude_step(step_none), global_default), true);
    let step_false: Option<bool> = Some(false);
    assert_eq!(step_false.unwrap_or(global_default), false);
    assert_eq!(sandbox_enabled(&claude_step(step_false), global_default), false);
    let step_true: Option<bool> = Some(true);
    assert_eq!(step_true.unwrap_or(global_default), true);
    assert_eq!(sandbox_enabled(&claude_step(step_true), global_default), true);
}

#[test]
fn a_missing_file_gives_the_default_configuration() {
    let config = Config::load(None);
    assert_eq!(config.workflows.len(), 1);
    assert_eq!(config.default_workflow().name, config.workflows[0].name);
    let kept = Config {
        workflows: vec![workflow("a"), workflow("b")],
        default_workflow: Some("b".to_string()),
        default_sandbox_mode: false,
    };
    let loaded = Config::load(Some(kept));
    assert_eq!(loaded.workflows.len(), 2);
    assert_eq!(loaded.default_sandbox_mode, false);
}

#[test]
fn the_default_workflow_is_found_by_name() {
    let mut config = Config {
        workflows: vec![workflow("a"), workflow("b"), workflow("b")],
        default_workflow: Some("b".to_string()),
        default_sandbox_mode: true,
    };
    assert_eq!(config.default_workflow().name, "b");
    config.default_workflow = Some("missing".to_string());
    assert_eq!(config.default_workflow().name, "a");
    config.default_workflow = None;
    assert_eq!(config.default_workflow().name, "a");
    assert!(config.workflow_by_name("b").is_some());
    assert!(config.workflow_by_name("c").is_none());
    assert_eq!(find_workflow(&config.workflows, "b"), Some(1));
    assert_eq!(config.workflows[0].steps().len(), 0);
}
