use niya::config::{PermissionPolicy, ProviderConfig, ResolvedConfig, ToolPermission};
use niya::merge::merge_configs;
use niya::schema::{validate, ConfigError};
use niya::loader::{ancestors, detect_project_root, global_config_path, markers, project_config_path, resolve_env_vars};
use niya::string_map::StringMap;

fn provider(model: &str) -> ProviderConfig {
    ProviderConfig {
        api_key: Some("sk-test".to_string()),
        base_url: None,
        default_model: model.to_string(),
        max_retries: 3,
    }
}

#[test]
fn validate_rejects_empty_config() {
    let config = ResolvedConfig::default();
    let result = validate(&config);
    assert!(result.is_err());
}

#[test]
fn validate_accepts_valid_config() {
    let mut config = ResolvedConfig::default();
    config.default_provider = "openai".to_string();
    config.providers.insert(
        "openai".to_string(),
        ProviderConfig {
            api_key: Some("sk-test".to_string()),
            base_url: None,
            default_model: "gpt-4o".to_string(),
            max_retries: 3,
        },
    );

    let result = validate(&config);
    assert!(result.is_ok());
}

#[test]
fn validate_rejects_invalid_default_provider() {
    let mut config = ResolvedConfig::default();
    config.default_provider = "nonexistent".to_string();
    config.providers.insert(
        "openai".to_string(),
        ProviderConfig {
            api_key: Some("sk-test".to_string()),
            base_url: None,
            default_model: "gpt-4o".to_string(),
            max_retries: 3,
        },
    );

    let result = validate(&config);
    assert!(result.is_err());
}

#[test]
fn validate_reports_every_error_in_order() {
    let mut config = ResolvedConfig::default();
    config.default_provider = "nonexistent".to_string();
    config.providers.insert("a".to_string(), provider(""));
    config.providers.insert("b".to_string(), provider("m"));
    config.providers.insert("c".to_string(), provider(""));
    let errors = validate(&config).unwrap_err();
    let texts: Vec<String> = errors.iter().map(|e| e.describe()).collect();
    assert_eq!(
        texts,
        vec![
            "Default provider 'nonexistent' is not configured in providers list.".to_string(),
            "Provider 'a' is missing required field: default_model".to_string(),
            "Provider 'c' is missing required field: default_model".to_string(),
        ]
    );
    let empty = validate(&ResolvedConfig::default()).unwrap_err();
    assert_eq!(empty.len(), 1);
    assert!(matches!(empty[0], ConfigError::NoProvider));
    assert_eq!(empty[0].describe(), "No provider configured. Run `nexus --setup` to get started.");
}

#[test]
fn lib_default_config_has_sensible_values() {
    let config = ResolvedConfig::default();
    assert_eq!(config.session.max_iterations, 20);
    assert_eq!(config.session.shell_timeout, 30_000);
    assert_eq!(config.permissions.default_level, "ask");
    assert!(config.display.color);
    assert!(config.display.markdown);
}

#[test]
fn permission_policy_default_has_deny_patterns() {
    let policy = PermissionPolicy::default();
    assert!(!policy.shell_deny_patterns.is_empty());
}

#[test]
fn merge_overrides_default_provider() {
    let base = ResolvedConfig {
        default_provider: "anthropic".to_string(),
        ..Default::default()
    };
    let override_cfg = ResolvedConfig {
        default_provider: "ollama".to_string(),
        ..Default::default()
    };

    let merged = merge_configs(base, override_cfg);
    assert_eq!(merged.default_provider, "ollama");
}

#[test]
fn merge_deep_merges_providers() {
    let mut base = ResolvedConfig::default();
    base.providers.insert(
        "anthropic".to_string(),
        ProviderConfig {
            api_key: Some("sk-base".to_string()),
            base_url: None,
            default_model: "sonnet-4-6".to_string(),
            max_retries: 3,
        },
    );

    let mut override_cfg = ResolvedConfig::default();
    override_cfg.providers.insert(
        "ollama".to_string(),
        ProviderConfig {
            api_key: None,
            base_url: Some("http://localhost:11434".to_string()),
            default_model: "llama3".to_string(),
            max_retries: 3,
        },
    );

    let merged = merge_configs(base, override_cfg);
    assert!(merged.providers.contains_key("anthropic"));
    assert!(merged.providers.contains_key("ollama"));
}

#[test]
fn merge_override_provider_wins_and_unset_fields_keep_base() {
    let mut base = ResolvedConfig::default();
    base.default_provider = "a".to_string();
    base.providers.insert("a".to_string(), provider("old"));
    base.session.max_iterations = 7;
    let mut over = ResolvedConfig::default();
    over.providers.insert("a".to_string(), provider("new"));
    over.session.shell_timeout = 5;
    let mut perms = PermissionPolicy::default();
    perms.tools.insert("grep".to_string(), ToolPermission { level: "auto".to_string(), auto_approve_when: vec![] });
    perms.shell_deny_patterns = vec!["x".to_string()];
    over.permissions = perms;
    let merged = merge_configs(base, over);
    assert_eq!(merged.default_provider, "a");
    assert_eq!(merged.providers.get("a").unwrap().default_model, "new");
    assert_eq!(merged.providers.len(), 1);
    assert_eq!(merged.session.max_iterations, 7);
    assert_eq!(merged.session.shell_timeout, 5);
    assert!(merged.permissions.tools.contains_key("grep"));
    assert_eq!(merged.permissions.shell_deny_patterns, vec!["x".to_string()]);
}

#[test]
fn config_paths_are_under_niya() {
    assert_eq!(project_config_path("/p"), "/p/.niya/config.yaml");
    assert_eq!(global_config_path(Some("/home/u")), Some("/home/u/.niya/config.yaml".to_string()));
    assert_eq!(global_config_path(None), None);
    assert_eq!(markers().len(), 7);
}

#[test]
fn detect_project_root_takes_first_marked_ancestor() {
    let dirs = ancestors("/a/b/c");
    assert_eq!(dirs, vec!["/a/b/c".to_string(), "/a/b".to_string(), "/a".to_string(), "/".to_string()]);
    assert_eq!(detect_project_root("/a/b/c", &vec![false, true, true, false]), "/a/b");
    assert_eq!(detect_project_root("/a/b/c", &vec![false, false, false, false]), "/a/b/c");
    let rel = ancestors("x/y");
    assert_eq!(rel, vec!["x/y".to_string(), "x".to_string(), "".to_string()]);
}

#[test]
fn resolve_env_vars_replaces_known_vars() {
    let mut env = StringMap::new();
    env.insert("NIYA_TEST_VAR".to_string(), "hello".to_string());
    let result = resolve_env_vars("key: ${NIYA_TEST_VAR}", &env);
    assert_eq!(result, "key: hello");
}

#[test]
fn resolve_env_vars_clears_unknown_vars() {
    let env: StringMap<String> = StringMap::new();
    let result = resolve_env_vars("key: ${NIYA_NONEXISTENT_VAR_12345}", &env);
    assert_eq!(result, "key: ");
}

#[test]
fn env_references_are_replaced_in_order() {
    let mut env = StringMap::new();
    env.insert("A".to_string(), "1".to_string());
    env.insert("B_2".to_string(), "two".to_string());
    assert_eq!(resolve_env_vars("${A}-${B_2}-${C}-$A-${not closed", &env), "1-two--$A-${not closed");
    assert_eq!(resolve_env_vars("no refs", &env), "no refs");
}

#[test]
fn merge_takes_the_override_scalars() {
    let base = ResolvedConfig::default();
    let mut over = ResolvedConfig::default();
    over.context.project_instruction_file = "CONTRIBUTING.md".to_string();
    over.session.shell_output_limit = 5000;
    over.display.color = false;
    let merged = merge_configs(base, over);
    assert_eq!(merged.context.project_instruction_file, "CONTRIBUTING.md");
    assert_eq!(merged.session.shell_output_limit, 5000);
    assert!(!merged.display.color);
    assert!(merged.display.markdown);
}

#[test]
fn merge_replaces_override_arrays() {
    let base = ResolvedConfig::default();
    let mut over = ResolvedConfig::default();
    over.permissions.shell_deny_patterns = vec![r"chmod\s+-R\s+777".to_string()];
    over.permissions.allowed_paths = vec!["src".to_string()];
    let merged = merge_configs(base, over);
    assert_eq!(merged.permissions.shell_deny_patterns, vec![r"chmod\s+-R\s+777".to_string()]);
    assert_eq!(merged.permissions.allowed_paths, vec!["src".to_string()]);
    assert_eq!(merged.permissions.default_level, "ask");
}

#[test]
fn merge_keeps_base_settings_an_override_leaves_at_default() {
    let mut base = ResolvedConfig::default();
    base.permissions.shell_deny_patterns = vec!["x".to_string()];
    base.permissions.default_level = "auto".to_string();
    base.session.log_directory = "logs".to_string();
    let merged = merge_configs(base, ResolvedConfig::default());
    assert_eq!(merged.permissions.shell_deny_patterns, vec!["x".to_string()]);
    assert_eq!(merged.permissions.default_level, "auto");
    assert_eq!(merged.session.log_directory, "logs");
}

#[test]
fn merge_follows_a_layer_that_sets_permissions() {
    let mut base = ResolvedConfig::default();
    base.permissions.default_level = "auto".to_string();
    base.permissions.shell_deny_patterns = vec!["x".to_string()];
    base.project_root = "/base".to_string();
    let mut over = ResolvedConfig::default();
    over.permissions.tools.insert("grep".to_string(), ToolPermission { level: "auto".to_string(), auto_approve_when: vec![] });
    over.project_root = "/other".to_string();
    let merged = merge_configs(base, over);
    assert_eq!(merged.permissions.default_level, "ask");
    assert_eq!(merged.permissions.shell_deny_patterns.len(), 4);
    assert_eq!(merged.project_root, "/base");
}
