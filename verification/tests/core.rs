use niya::config::{ArgCondition, PermissionPolicy, ToolPermission};
use niya::json::{JsonNumber, JsonValue};
use niya::permission::{PathProbe, PermissionGate};
use niya::string_map::StringMap;
use niya::tool::ToolRegistry;
use niya::types::{NexusError, PermissionDecision, ProviderError, TokenUsage, ToolResult, ToolSchema};

fn obj(members: Vec<(&str, JsonValue)>) -> JsonValue {
    JsonValue::Object(members.into_iter().map(|(k, v)| (k.to_string(), v)).collect())
}

fn s(v: &str) -> JsonValue {
    JsonValue::Str(v.to_string())
}

fn test_policy() -> PermissionPolicy {
    let mut tools = StringMap::new();
    tools.insert(
        "file_read".to_string(),
        ToolPermission {
            level: "auto".to_string(),
            auto_approve_when: vec![],
        },
    );
    tools.insert(
        "shell_execute".to_string(),
        ToolPermission {
            level: "ask".to_string(),
            auto_approve_when: vec![ArgCondition {
                arg: "command".to_string(),
                matches: "^cargo test$".to_string(),
            }],
        },
    );
    PermissionPolicy {
        default_level: "ask".to_string(),
        tools,
        shell_deny_patterns: vec![r"rm\s+-rf\s+/".to_string()],
        allowed_paths: vec![],
    }
}

fn tool_schema(name: &str) -> ToolSchema {
    ToolSchema {
        name: name.to_string(),
        description: String::new(),
        parameters: obj(vec![]),
    }
}

fn no_path() -> PathProbe {
    PathProbe {
        root: Ok("/project".to_string()),
        target_exists: false,
        target: Err("not asked".to_string()),
        parent: Err("not asked".to_string()),
    }
}

#[test]
fn auto_level_allows_immediately() {
    let gate = PermissionGate::new(test_policy(), "/project");
    let probe = PathProbe {
        root: Ok("/project".to_string()),
        target_exists: false,
        target: Err("No such file or directory".to_string()),
        parent: Ok("/project/src".to_string()),
    };
    let decision = gate.check(&tool_schema("file_read"), &obj(vec![("file_path", s("src/main.rs"))]), &probe);
    assert!(matches!(decision, PermissionDecision::Allow));
}

#[test]
fn deny_list_blocks_dangerous_commands() {
    let gate = PermissionGate::new(test_policy(), "/project");
    let decision = gate.check(&tool_schema("shell_execute"), &obj(vec![("command", s("rm -rf /"))]), &no_path());
    assert!(matches!(decision, PermissionDecision::Deny { .. }));
}

#[test]
fn auto_approve_condition_matches() {
    let gate = PermissionGate::new(test_policy(), "/project");
    let decision = gate.check(&tool_schema("shell_execute"), &obj(vec![("command", s("cargo test"))]), &no_path());
    assert!(matches!(decision, PermissionDecision::Allow));
}

#[test]
fn ask_level_prompts_for_unknown_commands() {
    let gate = PermissionGate::new(test_policy(), "/project");
    let decision = gate.check(&tool_schema("shell_execute"), &obj(vec![("command", s("npm install express"))]), &no_path());
    assert!(matches!(decision, PermissionDecision::Ask { .. }));
}

#[test]
fn session_override_upgrades_to_auto() {
    let mut gate = PermissionGate::new(test_policy(), "/project");
    let args = obj(vec![("command", s("npm install express"))]);
    let decision = gate.check(&tool_schema("shell_execute"), &args, &no_path());
    assert!(matches!(decision, PermissionDecision::Ask { .. }));
    gate.session_approve("shell_execute");
    let decision = gate.check(&tool_schema("shell_execute"), &args, &no_path());
    assert!(matches!(decision, PermissionDecision::Allow));
}

#[test]
fn session_approval_does_not_lift_the_deny_list() {
    let mut gate = PermissionGate::new(test_policy(), "/project");
    gate.session_approve("shell_execute");
    match gate.check(&tool_schema("shell_execute"), &obj(vec![("command", s("rm -rf /"))]), &no_path()) {
        PermissionDecision::Deny { reason } => assert_eq!(reason, r"Command matches deny pattern: rm\s+-rf\s+/"),
        other => panic!("unexpected {:?}", other),
    }
}

#[test]
fn disabled_tool_is_refused() {
    let mut policy = test_policy();
    policy.tools.insert(
        "file_write".to_string(),
        ToolPermission {
            level: "deny".to_string(),
            auto_approve_when: vec![],
        },
    );
    let gate = PermissionGate::new(policy, "/project");
    let inside = PathProbe {
        root: Ok("/project".to_string()),
        target_exists: true,
        target: Ok("/project/a.txt".to_string()),
        parent: Err("not asked".to_string()),
    };
    match gate.check(&tool_schema("file_write"), &obj(vec![("file_path", s("a.txt"))]), &inside) {
        PermissionDecision::Deny { reason } => assert_eq!(reason, "Tool is disabled by policy"),
        other => panic!("unexpected {:?}", other),
    }
}

#[test]
fn permission_messages_read_as_documented() {
    let gate = PermissionGate::new(test_policy(), "/project");
    match gate.check(&tool_schema("shell_execute"), &obj(vec![("command", s("rm -rf /"))]), &no_path()) {
        PermissionDecision::Deny { reason } => assert_eq!(reason, r"Command matches deny pattern: rm\s+-rf\s+/"),
        other => panic!("unexpected {:?}", other),
    }
    match gate.check(&tool_schema("grep"), &obj(vec![]), &no_path()) {
        PermissionDecision::Ask { message } => assert_eq!(message, "Allow grep with args {}?"),
        other => panic!("unexpected {:?}", other),
    }
    match gate.check(&tool_schema("grep"), &obj(vec![("pattern", s("x"))]), &no_path()) {
        PermissionDecision::Ask { message } => assert_eq!(message, "Allow grep with args {\n  \"pattern\": \"x\"\n}?"),
        other => panic!("unexpected {:?}", other),
    }
    let outside = PathProbe {
        root: Ok("/project".to_string()),
        target_exists: true,
        target: Ok("/etc/passwd".to_string()),
        parent: Err("not asked".to_string()),
    };
    match gate.check(&tool_schema("file_read"), &obj(vec![("file_path", s("../../etc/passwd"))]), &outside) {
        PermissionDecision::Deny { reason } => assert_eq!(reason, "Path is outside the project root"),
        other => panic!("unexpected {:?}", other),
    }
}

#[test]
fn tool_result_ok_creates_success() {
    let result = ToolResult::ok("file read successfully");
    assert!(result.success);
    assert_eq!(result.output, "file read successfully");
}

#[test]
fn tool_result_err_creates_failure() {
    let result = ToolResult::err("file not found");
    assert!(!result.success);
}

#[test]
fn tool_result_with_meta_adds_metadata() {
    let result = ToolResult::ok("done")
        .with_meta("path", s("/src/main.rs"))
        .with_meta("lines", JsonValue::Number(JsonNumber::Unsigned(42)));
    assert_eq!(result.metadata.len(), 2);
    let again = result.with_meta("lines", JsonValue::Bool(true));
    assert_eq!(again.metadata.len(), 2);
    assert!(matches!(again.metadata.get("lines"), Some(JsonValue::Bool(true))));
}

#[test]
fn token_usage_tracks_totals() {
    let mut usage = TokenUsage::default();
    usage.add(100, 50);
    usage.add(200, 75);
    assert_eq!(usage.input_tokens, 300);
    assert_eq!(usage.output_tokens, 125);
    assert_eq!(usage.total(), 425);
}

#[test]
fn errors_describe_themselves() {
    assert_eq!(NexusError::MaxIterations(20).describe(), "Max iterations reached: 20");
    assert_eq!(NexusError::Cancelled.describe(), "Cancelled by user");
    assert_eq!(
        NexusError::Provider(ProviderError::Auth { message: "bad key".to_string() }).describe(),
        "Provider error: Authentication failed: bad key"
    );
    assert_eq!(
        NexusError::ContextOverflow { used: 10, limit: 5 }.describe(),
        "Context overflow: used 10 tokens, limit is 5"
    );
}

fn dummy(name: &str) -> ToolSchema {
    ToolSchema {
        name: name.to_string(),
        description: format!("A dummy {} tool", name),
        parameters: obj(vec![("type", s("object"))]),
    }
}

#[test]
fn registry_registers_and_retrieves_tools() {
    let mut registry = ToolRegistry::new();
    registry.register(dummy("file_read"), 1u32);
    registry.register(dummy("grep"), 2u32);

    assert_eq!(registry.len(), 2);
    assert_eq!(registry.get("file_read"), Some(&1));
    assert_eq!(registry.get("grep"), Some(&2));
    assert!(registry.get("nonexistent").is_none());
    assert!(!registry.is_empty());
}

#[test]
fn registry_returns_all_schemas() {
    let mut registry = ToolRegistry::new();
    registry.register(dummy("file_read"), ());
    registry.register(dummy("shell_execute"), ());

    let schemas = registry.all_schemas();
    assert_eq!(schemas.len(), 2);
    let names: Vec<_> = schemas.iter().map(|s| s.name.as_str()).collect();
    assert_eq!(names, vec!["file_read", "shell_execute"]);
    assert_eq!(registry.get_schema("shell_execute").unwrap().description, "A dummy shell_execute tool");
}

#[test]
fn token_usage_stops_at_the_maximum() {
    let mut usage = TokenUsage { input_tokens: u64::MAX - 1, output_tokens: 7 };
    usage.add(5, 1);
    assert_eq!(usage.input_tokens, u64::MAX);
    assert_eq!(usage.output_tokens, 8);
    assert_eq!(usage.total(), u64::MAX);
}
