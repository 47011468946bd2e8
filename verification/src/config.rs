//! Configuration types and their defaults.
//!
//! Configuration is layered: CLI flags over project config over global
//! config over the built-in defaults defined here.
use vstd::prelude::*;

use crate::string_map::StringMap;
use crate::text::string_views;

verus! {

/// Fully resolved configuration after merging all sources.
#[derive(Clone, Debug)]
pub struct ResolvedConfig {
    pub providers: StringMap<ProviderConfig>,
    pub default_provider: String,
    pub permissions: PermissionPolicy,
    pub context: ContextConfig,
    pub session: SessionConfig,
    pub display: DisplayConfig,
    pub project_root: String,
}

/// Configuration for a single LLM provider.
#[derive(Clone, Debug)]
pub struct ProviderConfig {
    pub api_key: Option<String>,
    pub base_url: Option<String>,
    pub default_model: String,
    pub max_retries: u32,
}

/// Permission policy configuration.
#[derive(Clone, Debug)]
pub struct PermissionPolicy {
    pub default_level: String,
    pub tools: StringMap<ToolPermission>,
    pub shell_deny_patterns: Vec<String>,
    pub allowed_paths: Vec<String>,
}

/// Per-tool permission configuration.
#[derive(Clone, Debug)]
pub struct ToolPermission {
    pub level: String,
    pub auto_approve_when: Vec<ArgCondition>,
}

/// A condition for auto-approving a tool call: the string argument `arg`
/// matches the regular expression `matches`.
#[derive(Clone, Debug)]
pub struct ArgCondition {
    pub arg: String,
    pub matches: String,
}

/// Context-related configuration.
#[derive(Clone, Debug)]
pub struct ContextConfig {
    pub max_project_context_lines: usize,
    pub project_instruction_file: String,
    pub respect_gitignore: bool,
}

/// Session-related configuration.
#[derive(Clone, Debug)]
pub struct SessionConfig {
    pub max_iterations: usize,
    pub log_directory: String,
    pub shell_timeout: u64,
    pub shell_output_limit: usize,
}

/// Display-related configuration.
#[derive(Clone, Debug)]
pub struct DisplayConfig {
    pub color: bool,
    pub markdown: bool,
    pub verbose: bool,
}

// ---------------------------------------------------------------------------
// Defaults
// ---------------------------------------------------------------------------

/// Default number of provider retries.
pub fn default_max_retries() -> (r: u32)
    ensures
        r == 3,
{
    3
}

/// Default permission level for tools without their own entry.
pub fn default_permission_level() -> (r: String)
    ensures
        r@ == "ask"@,
{
    "ask".to_owned()
}

/// Default number of lines taken from project files into the context.
pub fn default_max_context_lines() -> (r: usize)
    ensures
        r == 200,
{
    200
}

/// Default name of the project instruction file.
pub fn default_instruction_file() -> (r: String)
    ensures
        r@ == "NIYA.md"@,
{
    "NIYA.md".to_owned()
}

/// `true`, the default of the boolean switches that are on unless disabled.
pub fn default_true() -> (r: bool)
    ensures
        r,
{
    true
}

/// Default maximum number of agentic-loop iterations per turn.
pub fn default_max_iterations() -> (r: usize)
    ensures
        r == 20,
{
    20
}

/// Default session log directory, relative to the project root.
pub fn default_log_directory() -> (r: String)
    ensures
        r@ == ".niya/sessions"@,
{
    ".niya/sessions".to_owned()
}

/// Default shell timeout in milliseconds.
pub fn default_shell_timeout() -> (r: u64)
    ensures
        r == 30_000,
{
    30_000
}

/// Default limit on captured shell output, in bytes.
pub fn default_shell_output_limit() -> (r: usize)
    ensures
        r == 100_000,
{
    100_000
}

/// The shell deny patterns of the default policy.
pub open spec fn default_deny_patterns() -> Seq<Seq<char>> {
    seq![r"rm\s+-rf\s+/"@, "mkfs"@, r"dd\s+if="@, r":()\{ :|:& \};:"@]
}

impl Default for PermissionPolicy {
    fn default() -> (r: Self)
        ensures
            r.default_level@ == "ask"@,
            r.tools@ == Map::<Seq<char>, ToolPermission>::empty(),
            r.tools.pairs().len() == 0,
            string_views(r.shell_deny_patterns@) == default_deny_patterns(),
            r.allowed_paths@.len() == 0,
    {
        let mut patterns: Vec<String> = Vec::new();
        patterns.push(r"rm\s+-rf\s+/".to_owned());
        patterns.push("mkfs".to_owned());
        patterns.push(r"dd\s+if=".to_owned());
        patterns.push(r":()\{ :|:& \};:".to_owned());
        assert(string_views(patterns@) =~= default_deny_patterns());
        PermissionPolicy {
            default_level: default_permission_level(),
            tools: StringMap::new(),
            shell_deny_patterns: patterns,
            allowed_paths: Vec::new(),
        }
    }
}

impl Default for ContextConfig {
    fn default() -> (r: Self)
        ensures
            r.max_project_context_lines == 200,
            r.project_instruction_file@ == "NIYA.md"@,
            r.respect_gitignore,
    {
        ContextConfig {
            max_project_context_lines: default_max_context_lines(),
            project_instruction_file: default_instruction_file(),
            respect_gitignore: true,
        }
    }
}

impl Default for SessionConfig {
    fn default() -> (r: Self)
        ensures
            r.max_iterations == 20,
            r.log_directory@ == ".niya/sessions"@,
            r.shell_timeout == 30_000,
            r.shell_output_limit == 100_000,
    {
        SessionConfig {
            max_iterations: default_max_iterations(),
            log_directory: default_log_directory(),
            shell_timeout: default_shell_timeout(),
            shell_output_limit: default_shell_output_limit(),
        }
    }
}

impl Default for DisplayConfig {
    fn default() -> (r: Self)
        ensures
            r.color,
            r.markdown,
            !r.verbose,
    {
        DisplayConfig { color: true, markdown: true, verbose: false }
    }
}

impl Default for ResolvedConfig {
    fn default() -> (r: Self)
        ensures
            r.providers@ == Map::<Seq<char>, ProviderConfig>::empty(),
            r.providers.pairs().len() == 0,
            r.default_provider@.len() == 0,
            r.permissions.default_level@ == "ask"@,
            r.permissions.tools.pairs().len() == 0,
            r.permissions.tools@ == Map::<Seq<char>, ToolPermission>::empty(),
            string_views(r.permissions.shell_deny_patterns@) == default_deny_patterns(),
            r.permissions.allowed_paths@.len() == 0,
            r.context.max_project_context_lines == 200,
            r.context.project_instruction_file@ == "NIYA.md"@,
            r.context.respect_gitignore,
            r.session.max_iterations == 20,
            r.session.log_directory@ == ".niya/sessions"@,
            r.session.shell_timeout == 30_000,
            r.session.shell_output_limit == 100_000,
            r.display.color,
            r.display.markdown,
            !r.display.verbose,
            r.project_root@.len() == 0,
    {
        ResolvedConfig {
            providers: StringMap::new(),
            default_provider: String::new(),
            permissions: PermissionPolicy::default(),
            context: ContextConfig::default(),
            session: SessionConfig::default(),
            display: DisplayConfig::default(),
            project_root: String::new(),
        }
    }
}

} // verus!
