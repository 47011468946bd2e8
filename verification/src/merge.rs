//! Configuration merging.
//!
//! Merges two config layers. The override layer takes precedence over the
//! base for every setting it sets: a scalar wins when it differs from its
//! built-in default (the permission level when the layer sets permissions),
//! maps are merged key by key, and a list replaces the base's list when the
//! override gives one of its own. The project root is not a setting: the
//! base's stays.
use vstd::prelude::*;

use crate::config::{
    default_deny_patterns, ContextConfig, DisplayConfig, PermissionPolicy, ResolvedConfig, SessionConfig,
};
use crate::text::{str_eq, string_views};

verus! {

/// Whether a layer sets permissions: a level other than the default `ask`,
/// or per-tool entries.
pub open spec fn sets_permissions(p: PermissionPolicy) -> bool {
    p.default_level@ != "ask"@ || p.tools.pairs().len() > 0
}

/// Whether a layer gives deny patterns of its own: a non-empty list, when
/// the layer sets permissions or the list is not the built-in one (which a
/// layer without a `permissions` section carries).
pub open spec fn sets_deny_patterns(p: PermissionPolicy) -> bool {
    p.shell_deny_patterns@.len() > 0 && (sets_permissions(p) || string_views(p.shell_deny_patterns@)
        != default_deny_patterns())
}

/// `over` when the override layer sets the value, else `base`.
pub open spec fn pick<A>(set: bool, base: A, over: A) -> A {
    if set {
        over
    } else {
        base
    }
}

/// Whether two lists of strings hold the same texts.
fn strings_equal(a: &Vec<String>, b: &Vec<String>) -> (r: bool)
    ensures
        r == (string_views(a@) == string_views(b@)),
{
    if a.len() != b.len() {
        assert(string_views(a@).len() != string_views(b@).len());
        return false;
    }
    let mut i: usize = 0;
    while i < a.len()
        invariant
            i <= a@.len() == b@.len(),
            forall|j: int| 0 <= j < i ==> a@[j]@ == b@[j]@,
        decreases a@.len() - i,
    {
        if !str_eq(a[i].as_str(), b[i].as_str()) {
            assert(string_views(a@)[i as int] != string_views(b@)[i as int]);
            return false;
        }
        i = i + 1;
    }
    assert(string_views(a@) =~= string_views(b@));
    true
}

/// The permission policy of `over` merged over `base`.
fn merge_permissions(base: PermissionPolicy, over: PermissionPolicy) -> (r: PermissionPolicy)
    ensures
        r.default_level@ == pick(sets_permissions(over), base.default_level@, over.default_level@),
        r.tools@ == base.tools@.union_prefer_right(over.tools@),
        string_views(r.shell_deny_patterns@) == pick(
            sets_deny_patterns(over),
            string_views(base.shell_deny_patterns@),
            string_views(over.shell_deny_patterns@),
        ),
        r.allowed_paths@ == pick(over.allowed_paths@.len() > 0, base.allowed_paths@, over.allowed_paths@),
{
    let PermissionPolicy { default_level, tools, shell_deny_patterns, allowed_paths } = over;
    let mut merged = base;
    let sets = !str_eq(default_level.as_str(), "ask") || !tools.is_empty();
    if sets {
        merged.default_level = default_level;
    }
    merged.tools.extend(tools);
    let builtin = PermissionPolicy::default().shell_deny_patterns;
    if shell_deny_patterns.len() > 0 && (sets || !strings_equal(&shell_deny_patterns, &builtin)) {
        merged.shell_deny_patterns = shell_deny_patterns;
    }
    if allowed_paths.len() > 0 {
        merged.allowed_paths = allowed_paths;
    }
    merged
}

/// The context settings of `over` merged over `base`.
fn merge_context(base: ContextConfig, over: ContextConfig) -> (r: ContextConfig)
    ensures
        r.max_project_context_lines == pick(
            over.max_project_context_lines != 200,
            base.max_project_context_lines,
            over.max_project_context_lines,
        ),
        r.project_instruction_file@ == pick(
            over.project_instruction_file@ != "NIYA.md"@,
            base.project_instruction_file@,
            over.project_instruction_file@,
        ),
        r.respect_gitignore == (base.respect_gitignore && over.respect_gitignore),
{
    let ContextConfig { max_project_context_lines, project_instruction_file, respect_gitignore } = over;
    let mut merged = base;
    if max_project_context_lines != 200 {
        merged.max_project_context_lines = max_project_context_lines;
    }
    if !str_eq(project_instruction_file.as_str(), "NIYA.md") {
        merged.project_instruction_file = project_instruction_file;
    }
    if !respect_gitignore {
        merged.respect_gitignore = false;
    }
    merged
}

/// The session settings of `over` merged over `base`.
fn merge_session(base: SessionConfig, over: SessionConfig) -> (r: SessionConfig)
    ensures
        r.max_iterations == pick(over.max_iterations != 20, base.max_iterations, over.max_iterations),
        r.log_directory@ == pick(over.log_directory@ != ".niya/sessions"@, base.log_directory@, over.log_directory@),
        r.shell_timeout == pick(over.shell_timeout != 30_000, base.shell_timeout, over.shell_timeout),
        r.shell_output_limit == pick(over.shell_output_limit != 100_000, base.shell_output_limit, over.shell_output_limit),
{
    let SessionConfig { max_iterations, log_directory, shell_timeout, shell_output_limit } = over;
    let mut merged = base;
    if max_iterations != 20 {
        merged.max_iterations = max_iterations;
    }
    if !str_eq(log_directory.as_str(), ".niya/sessions") {
        merged.log_directory = log_directory;
    }
    if shell_timeout != 30_000 {
        merged.shell_timeout = shell_timeout;
    }
    if shell_output_limit != 100_000 {
        merged.shell_output_limit = shell_output_limit;
    }
    merged
}

/// The display settings of `over` merged over `base`: a switch that either
/// layer turns away from its default stays turned.
fn merge_display(base: DisplayConfig, over: DisplayConfig) -> (r: DisplayConfig)
    ensures
        r.color == (base.color && over.color),
        r.markdown == (base.markdown && over.markdown),
        r.verbose == (base.verbose || over.verbose),
{
    DisplayConfig {
        color: base.color && over.color,
        markdown: base.markdown && over.markdown,
        verbose: base.verbose || over.verbose,
    }
}

/// Merge two configs. `override_cfg` values take precedence over `base`
/// wherever the override layer sets them.
pub fn merge_configs(base: ResolvedConfig, override_cfg: ResolvedConfig) -> (r: ResolvedConfig)
    ensures
        r.providers@ == base.providers@.union_prefer_right(override_cfg.providers@),
        r.default_provider@ == pick(
            override_cfg.default_provider@.len() > 0,
            base.default_provider@,
            override_cfg.default_provider@,
        ),
        r.permissions.default_level@ == pick(
            sets_permissions(override_cfg.permissions),
            base.permissions.default_level@,
            override_cfg.permissions.default_level@,
        ),
        r.permissions.tools@ == base.permissions.tools@.union_prefer_right(override_cfg.permissions.tools@),
        string_views(r.permissions.shell_deny_patterns@) == pick(
            sets_deny_patterns(override_cfg.permissions),
            string_views(base.permissions.shell_deny_patterns@),
            string_views(override_cfg.permissions.shell_deny_patterns@),
        ),
        r.permissions.allowed_paths@ == pick(
            override_cfg.permissions.allowed_paths@.len() > 0,
            base.permissions.allowed_paths@,
            override_cfg.permissions.allowed_paths@,
        ),
        r.context.max_project_context_lines == pick(
            override_cfg.context.max_project_context_lines != 200,
            base.context.max_project_context_lines,
            override_cfg.context.max_project_context_lines,
        ),
        r.context.project_instruction_file@ == pick(
            override_cfg.context.project_instruction_file@ != "NIYA.md"@,
            base.context.project_instruction_file@,
            override_cfg.context.project_instruction_file@,
        ),
        r.context.respect_gitignore == (base.context.respect_gitignore && override_cfg.context.respect_gitignore),
        r.session.max_iterations == pick(
            override_cfg.session.max_iterations != 20,
            base.session.max_iterations,
            override_cfg.session.max_iterations,
        ),
        r.session.log_directory@ == pick(
            override_cfg.session.log_directory@ != ".niya/sessions"@,
            base.session.log_directory@,
            override_cfg.session.log_directory@,
        ),
        r.session.shell_timeout == pick(
            override_cfg.session.shell_timeout != 30_000,
            base.session.shell_timeout,
            override_cfg.session.shell_timeout,
        ),
        r.session.shell_output_limit == pick(
            override_cfg.session.shell_output_limit != 100_000,
            base.session.shell_output_limit,
            override_cfg.session.shell_output_limit,
        ),
        r.display.color == (base.display.color && override_cfg.display.color),
        r.display.markdown == (base.display.markdown && override_cfg.display.markdown),
        r.display.verbose == (base.display.verbose || override_cfg.display.verbose),
        r.project_root == base.project_root,
{
    let ResolvedConfig { providers, default_provider, permissions, context, session, display, .. } =
        override_cfg;
    let ResolvedConfig {
        providers: mut merged_providers,
        default_provider: base_provider,
        permissions: base_permissions,
        context: base_context,
        session: base_session,
        display: base_display,
        project_root: base_root,
    } = base;
    merged_providers.extend(providers);
    ResolvedConfig {
        providers: merged_providers,
        default_provider: if default_provider.as_str().is_empty() {
            base_provider
        } else {
            default_provider
        },
        permissions: merge_permissions(base_permissions, permissions),
        context: merge_context(base_context, context),
        session: merge_session(base_session, session),
        display: merge_display(base_display, display),
        project_root: base_root,
    }
}

} // verus!
