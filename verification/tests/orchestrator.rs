use niya::context::ContextManager;
use niya::json::JsonValue;
use niya::config::{PermissionPolicy, ToolPermission};
use niya::orchestrator::{Action, Orchestrator, OrchestratorConfig};
use niya::permission::{PathProbe, PermissionGate};
use niya::session::SessionLogger;
use niya::string_map::StringMap;
use niya::tool::ToolRegistry;
use niya::types::{ChatResponseChunk, Message, NexusError, OutputEvent, ProviderError, ToolContext, ToolResult, ToolSchema};

fn allow_policy_for(tool_name: &str, level: &str) -> PermissionPolicy {
    let mut tools = StringMap::new();
    tools.insert(tool_name.to_string(), ToolPermission { level: level.to_string(), auto_approve_when: vec![] });
    PermissionPolicy { default_level: "deny".to_string(), tools, shell_deny_patterns: vec![], allowed_paths: vec![] }
}

fn echo_schema() -> ToolSchema {
    ToolSchema {
        name: "echo_tool".to_string(),
        description: "Echo input".to_string(),
        parameters: JsonValue::Object(vec![("type".to_string(), JsonValue::Str("object".to_string()))]),
    }
}

fn orchestrator(level: &str, config: OrchestratorConfig) -> Orchestrator<()> {
    let mut registry = ToolRegistry::new();
    registry.register(echo_schema(), ());
    Orchestrator::new(
        registry,
        PermissionGate::new(allow_policy_for("echo_tool", level), "/tmp/p"),
        ContextManager::new(128_000),
        SessionLogger::new("test-session", None),
        config,
        ToolContext { project_root: "/tmp/p".to_string(), cwd: "/tmp/p".to_string(), env: StringMap::new() },
    )
}

fn probe() -> PathProbe {
    PathProbe { root: Ok("/tmp/p".to_string()), target_exists: false, target: Err(String::new()), parent: Err(String::new()) }
}

fn msg_input() -> JsonValue {
    JsonValue::Object(vec![("msg".to_string(), JsonValue::Str("hello".to_string()))])
}

/// Drives one turn: `responses` are the provider's streams in order; tools
/// answer with "echo:" and their input text; approvals are `approve`.
fn run(o: &mut Orchestrator<()>, message: &str, responses: Vec<Vec<ChatResponseChunk>>, approve: bool) -> Vec<OutputEvent> {
    let mut responses = responses.into_iter();
    let mut stream: std::vec::IntoIter<ChatResponseChunk> = Vec::new().into_iter();
    let mut action = o.begin_turn(message);
    loop {
        action = match action {
            Action::Continue => o.advance(),
            Action::CallProvider { .. } => match responses.next() {
                Some(chunks) => {
                    stream = chunks.into_iter();
                    o.stream_opened()
                }
                None => o.provider_failed(ProviderError::Network { message: "no more responses".to_string() }),
            },
            Action::ReadStream => match stream.next() {
                Some(chunk) => {
                    o.receive_chunk(chunk)
                }
                None => o.stream_ended(),
            },
            Action::CheckPermission { .. } => o.permission_probe(&probe()),
            Action::AskApproval { .. } => o.approval(approve),
            Action::Execute { .. } => o.tool_finished(ToolResult::ok("echo:{\"msg\":\"hello\"}")),
            Action::Finished => break,
        };
    }
    o.take_events()
}

fn tool_round() -> Vec<ChatResponseChunk> {
    vec![
        ChatResponseChunk::ToolUseStart { id: "call_1".to_string(), name: "echo_tool".to_string() },
        ChatResponseChunk::ToolUseDelta { id: "call_1".to_string(), input_delta: "{\"msg\":\"hello\"}".to_string() },
        ChatResponseChunk::ToolUseEnd { id: "call_1".to_string(), input: msg_input() },
        ChatResponseChunk::Done,
    ]
}

fn text_round(t: &str) -> Vec<ChatResponseChunk> {
    vec![ChatResponseChunk::TextDelta { text: t.to_string() }, ChatResponseChunk::Done]
}

#[test]
fn orchestrator_default_config_has_sensible_values() {
    let config = OrchestratorConfig::default();
    assert_eq!(config.max_iterations, 20);
    assert!(!config.dry_run);
}

#[test]
fn executes_tool_call_when_tool_use_end_is_present() {
    let mut o = orchestrator("auto", OrchestratorConfig::default());
    let events = run(&mut o, "use tool", vec![tool_round(), text_round("done")], false);
    assert!(events.iter().any(|e| matches!(e, OutputEvent::ToolCall { tool_name, .. } if tool_name == "echo_tool")));
    assert!(events.iter().any(|e| matches!(e, OutputEvent::ToolResult { result, .. } if result.success)));
    assert!(events.iter().any(|e| matches!(e, OutputEvent::Done)));
    assert!(matches!(events.last(), Some(OutputEvent::Done)));
}

#[test]
fn refused_and_unknown_tools_answer_with_errors() {
    let mut o = orchestrator("ask", OrchestratorConfig::default());
    let events = run(&mut o, "go", vec![tool_round(), text_round("ok")], false);
    assert!(events.iter().any(|e| matches!(e, OutputEvent::ApprovalRequest { message, .. } if message == "Allow echo_tool with args {\n  \"msg\": \"hello\"\n}?")));
    assert!(events.iter().any(|e| matches!(e, OutputEvent::ToolResult { result, .. } if !result.success && result.output == "Permission denied by user")));

    let mut o = orchestrator("auto", OrchestratorConfig::default());
    let unknown = vec![
        ChatResponseChunk::ToolUseStart { id: "c9".to_string(), name: "nope".to_string() },
        ChatResponseChunk::ToolUseEnd { id: "c9".to_string(), input: JsonValue::Null },
        ChatResponseChunk::Done,
    ];
    let events = run(&mut o, "go", vec![unknown, text_round("ok")], false);
    assert!(events.iter().any(|e| matches!(e, OutputEvent::ToolResult { tool_name, result } if tool_name == "nope" && result.output == "Unknown tool: nope")));
}

#[test]
fn dry_run_describes_instead_of_executing() {
    let mut o = orchestrator("auto", OrchestratorConfig { max_iterations: 20, dry_run: true });
    let events = run(&mut o, "go", vec![tool_round(), text_round("ok")], false);
    assert!(events.iter().any(|e| matches!(e, OutputEvent::ToolResult { result, .. } if result.success && result.output == "[dry-run] Would execute echo_tool with {\"msg\":\"hello\"}")));
}

#[test]
fn turn_stops_at_the_round_limit() {
    let mut o = orchestrator("auto", OrchestratorConfig { max_iterations: 1, dry_run: false });
    let events = run(&mut o, "go", vec![tool_round(), tool_round()], false);
    assert!(matches!(events.last(), Some(OutputEvent::Error { error: NexusError::MaxIterations(1) })));
    let statuses = events.iter().filter(|e| matches!(e, OutputEvent::Status { .. })).count();
    assert_eq!(statuses, 1);
}

#[test]
fn provider_failure_ends_the_turn() {
    let mut o = orchestrator("auto", OrchestratorConfig::default());
    let events = run(&mut o, "go", vec![], false);
    assert!(matches!(events.last(), Some(OutputEvent::Error { error: NexusError::Provider(ProviderError::Network { .. }) })));
    assert_eq!(o.usage().total(), 0);
}

#[test]
fn cancel_stops_before_the_next_call() {
    let mut o = orchestrator("auto", OrchestratorConfig::default());
    let mut a = o.begin_turn("go");
    o.cancel();
    a = match a {
        Action::Continue => o.advance(),
        other => other,
    };
    assert!(matches!(a, Action::Finished));
    let events = o.take_events();
    assert!(matches!(events.last(), Some(OutputEvent::Error { error: NexusError::Cancelled })));
}

#[test]
fn every_tool_call_is_answered_in_the_history() {
    let mut o = orchestrator("auto", OrchestratorConfig::default());
    let two_calls = vec![
        ChatResponseChunk::TextDelta { text: "let me look".to_string() },
        ChatResponseChunk::ToolUseStart { id: "a".to_string(), name: "echo_tool".to_string() },
        ChatResponseChunk::ToolUseEnd { id: "a".to_string(), input: msg_input() },
        ChatResponseChunk::ToolUseStart { id: "b".to_string(), name: "missing".to_string() },
        ChatResponseChunk::ToolUseEnd { id: "b".to_string(), input: msg_input() },
        ChatResponseChunk::Done,
    ];
    let _ = run(&mut o, "go", vec![two_calls, text_round("done")], false);
    let history = o.context_manager().assemble().messages;
    assert_eq!(history.len(), 5);
    assert!(matches!(&history[0], Message::User { content } if content == "go"));
    assert!(matches!(&history[1], Message::Assistant { content } if content.len() == 3));
    assert!(matches!(&history[2], Message::Tool { tool_call_id, .. } if tool_call_id == "a"));
    assert!(matches!(&history[3], Message::Tool { tool_call_id, content } if tool_call_id == "b" && content == "Unknown tool: missing"));
    assert!(matches!(&history[4], Message::Assistant { .. }));
}

#[test]
fn parallel_calls_keep_their_own_tools() {
    let mut o = orchestrator("auto", OrchestratorConfig::default());
    let parallel = vec![
        ChatResponseChunk::ToolUseStart { id: "a".to_string(), name: "echo_tool".to_string() },
        ChatResponseChunk::ToolUseStart { id: "b".to_string(), name: "missing".to_string() },
        ChatResponseChunk::ToolUseEnd { id: "a".to_string(), input: msg_input() },
        ChatResponseChunk::ToolUseEnd { id: "b".to_string(), input: msg_input() },
        ChatResponseChunk::Done,
    ];
    let events = run(&mut o, "go", vec![parallel, text_round("done")], false);
    let calls: Vec<&str> = events
        .iter()
        .filter_map(|e| match e {
            OutputEvent::ToolCall { tool_name, .. } => Some(tool_name.as_str()),
            _ => None,
        })
        .collect();
    assert_eq!(calls, vec!["echo_tool"]);
    let history = o.context_manager().assemble().messages;
    assert!(matches!(&history[2], Message::Tool { tool_call_id, content } if tool_call_id == "a" && content.starts_with("echo:")));
    assert!(matches!(&history[3], Message::Tool { tool_call_id, content } if tool_call_id == "b" && content == "Unknown tool: missing"));
}
