use niya::json::JsonValue;
use niya::renderer::{help_entries, preview_result, summarise_tool_args, truncate, Renderer};
use niya::types::ToolResult;

fn args(members: Vec<(&str, &str)>) -> JsonValue {
    JsonValue::Object(members.into_iter().map(|(k, v)| (k.to_string(), JsonValue::Str(v.to_string()))).collect())
}

#[test]
fn truncate_short_string_unchanged() {
    assert_eq!(truncate("hello", 10), "hello");
}

#[test]
fn truncate_long_string_adds_ellipsis() {
    let result = truncate("a very long string that exceeds the limit", 10);
    assert!(result.ends_with('…'));
    assert!(result.len() <= 14);
    assert_eq!(result, "a very lon…");
}

#[test]
fn summarise_file_read_shows_path() {
    let a = args(vec![("file_path", "src/main.rs")]);
    assert_eq!(summarise_tool_args("file_read", &a), "src/main.rs");
}

#[test]
fn summarise_shell_shows_command() {
    let a = args(vec![("command", "cargo test")]);
    assert_eq!(summarise_tool_args("shell_execute", &a), "cargo test");
}

#[test]
fn summaries_of_other_tools() {
    let w = args(vec![("file_path", "a.txt"), ("content", "héllo")]);
    assert_eq!(summarise_tool_args("file_write", &w), "a.txt (6 bytes)");
    assert_eq!(summarise_tool_args("file_write", &args(vec![])), "? (0 bytes)");
    assert_eq!(summarise_tool_args("glob", &args(vec![("pattern", "*.rs")])), "*.rs");
    assert_eq!(summarise_tool_args("mystery", &args(vec![("x", "1")])), "{\"x\":\"1\"}");
    assert_eq!(summarise_tool_args("mystery", &args(vec![])), "{}");
    let long = "x".repeat(100);
    assert_eq!(summarise_tool_args("shell_execute", &args(vec![("command", &long)])), format!("{}…", "x".repeat(80)));
}

#[test]
fn result_preview_marks_success() {
    assert_eq!(preview_result(&ToolResult::ok("fine")), "✔ fine");
    assert_eq!(preview_result(&ToolResult::err("bad")), "✘ bad");
    let r = Renderer::new(false, true);
    assert!(!r.color && r.markdown);
    assert_eq!(help_entries()[2].0, "/add <path>");
}

#[test]
fn truncate_counts_characters() {
    assert_eq!(truncate("ééééé", 3), "ééé…");
    assert_eq!(truncate("éé", 2), "éé");
}
