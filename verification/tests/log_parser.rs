use gensui::log_parser::LogParser;
use gensui::ui::types::StepStatus;

#[test]
fn test_parse_complete_step() {
    let mut parser = LogParser::new();
    assert!(parser.parse_line("[STEP_START:0:TestStep]").is_none());
    assert!(parser.parse_line("[PROMPT_START]").is_none());
    assert!(parser.parse_line("This is a prompt").is_none());
    assert!(parser.parse_line("[PROMPT_END]").is_none());
    assert!(parser.parse_line("[RESULT_START]").is_none());
    assert!(parser.parse_line("This is a result").is_none());
    assert!(parser.parse_line("[RESULT_END]").is_none());
    let entry = parser.parse_line("[STEP_END:Success]");
    assert!(entry.is_some());
    let entry = entry.unwrap();
    assert_eq!(entry.step_index, 0);
    assert_eq!(entry.step_name, "TestStep");
    assert_eq!(entry.status, StepStatus::Success);
    assert_eq!(entry.prompt_lines, vec!["This is a prompt"]);
    assert_eq!(entry.result_lines, vec!["This is a result"]);
}

#[test]
fn test_parse_with_thought() {
    let mut parser = LogParser::new();
    assert!(parser.parse_line("[STEP_START:1:ThinkingStep]").is_none());
    assert!(parser.parse_line("[THOUGHT_START]").is_none());
    assert!(parser.parse_line("Thinking about the problem").is_none());
    assert!(parser.parse_line("[THOUGHT_END]").is_none());
    let entry = parser.parse_line("[STEP_END:Success]");
    assert!(entry.is_some());
    let entry = entry.unwrap();
    assert_eq!(entry.thought_lines, vec!["Thinking about the problem"]);
}

#[test]
fn test_alternate_section_markers() {
    let mut parser = LogParser::new();
    assert!(parser.parse_line("[STEP_START:2:AlternateStep]").is_none());
    assert!(parser.parse_line("─── Prompt ───").is_none());
    assert!(parser.parse_line("Alternate prompt marker").is_none());
    assert!(parser.parse_line("─── Result ───").is_none());
    assert!(parser.parse_line("Alternate result marker").is_none());
    let entry = parser.parse_line("[STEP_END:Failed]");
    assert!(entry.is_some());
    let entry = entry.unwrap();
    assert_eq!(entry.status, StepStatus::Failed);
    assert_eq!(entry.prompt_lines, vec!["Alternate prompt marker"]);
    assert_eq!(entry.result_lines, vec!["Alternate result marker"]);
}

#[test]
fn sections_are_tracked() {
    let mut parser = LogParser::new();
    assert_eq!(parser.current_state(), (false, false, false));
    parser.parse_line("[PROMPT_START]");
    assert_eq!(parser.current_state(), (true, false, false));
    parser.parse_line("[RESULT_START]");
    assert_eq!(parser.current_state(), (false, true, false));
    parser.parse_line("[THOUGHT_START]");
    assert!(parser.current_state().2);
    parser.parse_line("[THOUGHT_END]");
    assert!(!parser.current_state().2);
}

#[test]
fn a_step_without_a_start_is_no_step() {
    let mut parser = LogParser::new();
    assert!(parser.parse_line("[STEP_END:Success]").is_none());
    assert!(parser.parse_line("[STEP_START:x:Broken]").is_none());
    assert!(parser.parse_line("[STEP_END:Success]").is_none());
}
