use niya::json::{JsonNumber, JsonValue};
use niya::session::{tool_call_entry, user_message_entry, SessionLogger};
use niya::types::{PermissionDecision, ToolResult};

fn member<'a>(v: &'a JsonValue, key: &str) -> Option<&'a JsonValue> {
    v.get(key)
}

fn is_str(v: Option<&JsonValue>, s: &str) -> bool {
    matches!(v, Some(JsonValue::Str(x)) if x == s)
}

#[test]
fn logger_records_user_messages() {
    let mut logger = SessionLogger::new("test-session", None);
    logger.log_user_message("Hello, world!");
    assert_eq!(logger.entries().len(), 1);
    assert!(is_str(member(&logger.entries()[0], "event"), "user_message"));
    assert!(is_str(member(&logger.entries()[0], "message"), "Hello, world!"));
}

#[test]
fn logger_records_tool_calls() {
    let mut logger = SessionLogger::new("test-session", None);
    let args = JsonValue::Object(vec![("file_path".to_string(), JsonValue::Str("src/main.rs".to_string()))]);
    logger.log_tool_call("file_read", &args, &PermissionDecision::Allow);
    assert!(is_str(member(&logger.entries()[0], "event"), "tool_call"));
    assert!(is_str(member(&logger.entries()[0], "decision"), "allow"));
}

#[test]
fn logger_records_tool_results() {
    let mut logger = SessionLogger::new("test-session", None);
    let result = ToolResult::ok("file contents here");
    logger.log_tool_result("file_read", &result);
    assert!(is_str(member(&logger.entries()[0], "event"), "tool_result"));
    assert!(matches!(member(&logger.entries()[0], "success"), Some(JsonValue::Bool(true))));
    assert!(matches!(member(&logger.entries()[0], "output_length"), Some(JsonValue::Number(JsonNumber::Unsigned(18)))));
}

#[test]
fn logger_names_its_file_and_session() {
    let logger = SessionLogger::new("abc", Some("/p/.niya/sessions"));
    assert_eq!(logger.session_id(), "abc");
    assert_eq!(logger.log_path(), Some("/p/.niya/sessions/abc.jsonl"));
    assert_eq!(SessionLogger::new("abc", None).log_path(), None);
}

#[test]
fn log_entries_hold_the_given_timestamp() {
    let e = user_message_entry("2024-01-01T00:00:00+00:00", "s", "hi");
    assert!(is_str(e.get("timestamp"), "2024-01-01T00:00:00+00:00"));
    assert!(is_str(e.get("session_id"), "s"));
    let d = tool_call_entry("t", "s", "shell_execute", &JsonValue::Null, &PermissionDecision::Ask { message: "m".to_string() });
    assert!(is_str(d.get("decision"), "ask"));
    assert!(matches!(d.get("args"), Some(JsonValue::Null)));
}
