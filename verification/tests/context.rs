use niya::context::{estimate_tokens, truncate_lines, ContextManager};
use niya::types::{AssistantContent, Message, ToolResult};

#[test]
fn context_manager_starts_empty() {
    let cm = ContextManager::new(200_000);
    assert_eq!(cm.turn_count(), 0);
    assert_eq!(cm.usage().total(), 0);
}

#[test]
fn add_user_message_increments_turns() {
    let mut cm = ContextManager::new(200_000);
    cm.add_user_message("Hello");
    cm.add_user_message("Fix the bug");
    assert_eq!(cm.turn_count(), 2);
}

#[test]
fn assemble_includes_system_prompt() {
    let cm = ContextManager::new(200_000);
    let assembled = cm.assemble();
    assert!(assembled.system.contains("Niya"));
}

#[test]
fn reset_clears_everything() {
    let mut cm = ContextManager::new(200_000);
    cm.add_user_message("Hello");
    cm.record_usage(100, 50);
    cm.reset();
    assert_eq!(cm.turn_count(), 0);
    assert_eq!(cm.usage().total(), 0);
}

#[test]
fn token_budget_warns_at_80_percent() {
    let mut cm = ContextManager::new(100);
    cm.add_user_message(&"x".repeat(300));
    let assembled = cm.assemble();
    assert!(assembled.budget.warning_threshold);
}

#[test]
fn token_estimate_rounds_up_per_three_and_a_half_bytes() {
    assert_eq!(estimate_tokens(""), 0);
    assert_eq!(estimate_tokens("abc"), 1);
    assert_eq!(estimate_tokens("abcdefg"), 2);
    assert_eq!(estimate_tokens(&"x".repeat(300)), 86);
    assert_eq!(estimate_tokens("é"), 1);
}

#[test]
fn assemble_joins_sections_and_budgets_output() {
    let mut cm = ContextManager::new(1000);
    cm.init(Some("Be brief.".to_string()), Some(("README.md".to_string(), "one\ntwo\nthree\n".to_string())));
    cm.add_file("notes.txt", "/p", "a\nb");
    cm.add_user_message("hi");
    cm.add_assistant_message(vec![AssistantContent::Text { text: "hello".to_string() }]);
    cm.add_tool_result("call_1", &ToolResult::ok("out"));
    let a = cm.assemble();
    assert!(a.system.ends_with("\n\n## Project Instructions\n\nBe brief.\n\n## Project Context\n\nREADME.md:\none\ntwo\nthree\n\n## Pinned File: /p/notes.txt\n\na\nb"));
    assert_eq!(a.messages.len(), 3);
    assert!(matches!(&a.messages[2], Message::Tool { tool_call_id, content } if tool_call_id == "call_1" && content == "out"));
    assert_eq!(a.budget.remaining_for_output, 1000 - a.budget.used_tokens);
    assert_eq!(cm.turn_count(), 1);
}

#[test]
fn truncate_lines_keeps_the_first_lines() {
    assert_eq!(truncate_lines("a\nb\nc\n", 2), "a\nb");
    assert_eq!(truncate_lines("a\r\nb", 5), "a\nb");
    assert_eq!(truncate_lines("", 3), "");
}
