//! Configuration loading: where the configuration files are, which directory
//! is the project root, and how the layers stack. Reading the files and
//! probing the file system happen at the edge of the program.
use vstd::prelude::*;

use crate::config::ResolvedConfig;
use crate::config::default_deny_patterns;
use crate::merge::{merge_configs, sets_deny_patterns, sets_permissions};
use crate::pattern::regex_compiles;
use crate::search::{replace_captures, LinePattern};
use crate::string_map::StringMap;
use crate::paths::{components, join, path_components, path_join, render, render_components, root_comp};
use crate::text::{char_seqs, string_from_chars, string_views, to_owned_string};

verus! {

/// The names whose presence marks a project root, in the order they are tried.
pub open spec fn project_markers() -> Seq<Seq<char>> {
    seq![".niya"@, ".git"@, "package.json"@, "Cargo.toml"@, "pyproject.toml"@, "go.mod"@, "Makefile"@]
}

/// The names whose presence marks a project root.
pub fn markers() -> (r: Vec<String>)
    ensures
        string_views(r@) == project_markers(),
{
    let mut v: Vec<String> = Vec::new();
    v.push(".niya".to_owned());
    v.push(".git".to_owned());
    v.push("package.json".to_owned());
    v.push("Cargo.toml".to_owned());
    v.push("pyproject.toml".to_owned());
    v.push("go.mod".to_owned());
    v.push("Makefile".to_owned());
    assert(string_views(v@) =~= project_markers());
    v
}

/// The directories searched for a marker: `start`, then each parent in turn
/// (dropping the last component) while there is one: up to the root for an
/// absolute path, up to the empty path for a relative one.
pub open spec fn ancestor_dirs(start: Seq<char>) -> Seq<Seq<char>> {
    let cs = components(start);
    let n = cs.len() as int;
    let low: int = if n > 0 && cs[0] == root_comp() {
        1
    } else {
        0
    };
    let k: int = if n == 0 {
        0
    } else {
        n - low
    };
    seq![start] + Seq::new(k as nat, |i: int| render(cs.subrange(0, n - 1 - i)))
}

/// The directories searched for a marker, in order.
pub fn ancestors(start: &str) -> (r: Vec<String>)
    ensures
        string_views(r@) == ancestor_dirs(start@),
{
    let cs = path_components(start);
    let n = cs.len();
    let low: usize = if n > 0 && cs[0].len() == 1 && cs[0][0] == '/' {
        1
    } else {
        0
    };
    proof {
        if n > 0 {
            assert(char_seqs(cs@)[0] == cs@[0]@);
            if cs@[0]@ == root_comp() {
                assert(cs@[0]@.len() == 1 && cs@[0]@[0] == '/');
            }
            if cs@[0]@.len() == 1 && cs@[0]@[0] == '/' {
                assert(cs@[0]@ =~= root_comp());
            }
        }
    }
    let ghost k: int = if n == 0 {
        0
    } else {
        n - low
    };
    let ghost tail = Seq::new(k as nat, |i: int| render(char_seqs(cs@).subrange(0, n - 1 - i)));
    let mut out: Vec<String> = Vec::new();
    out.push(start.to_owned());
    assert(string_views(out@) =~= seq![start@] + tail.subrange(0, 0));
    if n == 0 {
        assert(ancestor_dirs(start@) =~= seq![start@]);
        return out;
    }
    let mut m: usize = n;
    while m > low
        invariant
            low <= m <= n,
            n == cs@.len(),
            n > 0,
            k == n - low,
            tail == Seq::new(k as nat, |i: int| render(char_seqs(cs@).subrange(0, n - 1 - i))),
            string_views(out@) == seq![start@] + tail.subrange(0, (n - m) as int),
        decreases m,
    {
        let mut prefix: Vec<Vec<char>> = Vec::new();
        let mut j: usize = 0;
        while j < m - 1
            invariant
                j <= m - 1,
                m <= n == cs@.len(),
                char_seqs(prefix@) == char_seqs(cs@).subrange(0, j as int),
            decreases m - 1 - j,
        {
            let c = crate::text::slice_chars(cs[j].as_slice(), 0, cs[j].len());
            let ghost before = char_seqs(prefix@);
            assert(c@ =~= cs@[j as int]@);
            prefix.push(c);
            assert(char_seqs(prefix@) =~= before.push(cs@[j as int]@));
            assert(char_seqs(prefix@) =~= char_seqs(cs@).subrange(0, j + 1));
            j = j + 1;
        }
        let r = render_components(prefix.as_slice());
        let ghost before = string_views(out@);
        let s = string_from_chars(r.as_slice());
        out.push(s);
        assert(tail[(n - m) as int] == render(char_seqs(cs@).subrange(0, m - 1)));
        assert(string_views(out@) =~= before.push(tail[(n - m) as int]));
        assert(tail.subrange(0, (n - m + 1) as int) =~= tail.subrange(0, (n - m) as int).push(tail[(n - m) as int]));
        m = m - 1;
    }
    assert(tail.subrange(0, k) =~= tail);
    assert(components(start@) == char_seqs(cs@));
    out
}

/// The index of the first `true` in `bs`.
pub open spec fn first_true(bs: Seq<bool>) -> Option<int>
    decreases bs.len(),
{
    if bs.len() == 0 {
        None
    } else if bs[0] {
        Some(0)
    } else {
        match first_true(bs.drop_first()) {
            Some(i) => Some(i + 1),
            None => None,
        }
    }
}

/// The project root for a walk from `start`: the first directory of
/// [`ancestors`] that holds a marker (`has_marker[i]` says whether the `i`-th
/// does), else `start` itself.
pub fn detect_project_root(start: &str, has_marker: &Vec<bool>) -> (r: String)
    requires
        has_marker@.len() == ancestor_dirs(start@).len(),
    ensures
        r@ == match first_true(has_marker@) {
            Some(i) => ancestor_dirs(start@)[i],
            None => start@,
        },
{
    let dirs = ancestors(start);
    let mut i: usize = 0;
    assert(has_marker@.subrange(0, has_marker@.len() as int) =~= has_marker@);
    while i < has_marker.len()
        invariant
            i <= has_marker@.len() == dirs@.len(),
            string_views(dirs@) == ancestor_dirs(start@),
            first_true(has_marker@) == match first_true(has_marker@.subrange(i as int, has_marker@.len() as int)) {
                Some(j) => Some(j + i),
                None => None,
            },
        decreases has_marker@.len() - i,
    {
        let ghost rest = has_marker@.subrange(i as int, has_marker@.len() as int);
        assert(rest.drop_first() =~= has_marker@.subrange(i + 1, has_marker@.len() as int));
        assert(rest[0] == has_marker@[i as int]);
        if has_marker[i] {
            assert(string_views(dirs@)[i as int] == dirs@[i as int]@);
            return dirs[i].clone();
        }
        i = i + 1;
    }
    start.to_owned()
}

/// Global config directory path (`<home>/.niya`), given the home directory.
pub fn global_config_dir(home: Option<&str>) -> (r: Option<String>)
    ensures
        match home {
            Some(h) => r matches Some(d) && d@ == path_join(h@, ".niya"@),
            None => r is None,
        },
{
    match home {
        Some(h) => Some(join(h, ".niya")),
        None => None,
    }
}

/// Global config file path (`<home>/.niya/config.yaml`), given the home directory.
pub fn global_config_path(home: Option<&str>) -> (r: Option<String>)
    ensures
        match home {
            Some(h) => r matches Some(p) && p@ == path_join(path_join(h@, ".niya"@), "config.yaml"@),
            None => r is None,
        },
{
    match global_config_dir(home) {
        Some(d) => Some(join(d.as_str(), "config.yaml")),
        None => None,
    }
}

/// Project config file path (`<root>/.niya/config.yaml`).
pub fn project_config_path(project_root: &str) -> (r: String)
    ensures
        r@ == path_join(path_join(project_root@, ".niya"@), "config.yaml"@),
{
    let d = join(project_root, ".niya");
    join(d.as_str(), "config.yaml")
}

/// The value of a setting over the layers: the project layer's when it
/// sets it, else the global layer's when that sets it, else the default.
pub open spec fn layered<A>(
    project: Option<ResolvedConfig>,
    global: Option<ResolvedConfig>,
    sets: spec_fn(ResolvedConfig) -> bool,
    value: spec_fn(ResolvedConfig) -> A,
    default: A,
) -> A {
    match project {
        Some(p) if sets(p) => value(p),
        _ => match global {
            Some(g) if sets(g) => value(g),
            _ => default,
        },
    }
}

/// The map a layer contributes when `sets` holds of it, else nothing.
pub open spec fn layer_map<V>(
    layer: Option<ResolvedConfig>,
    sets: spec_fn(ResolvedConfig) -> bool,
    map: spec_fn(ResolvedConfig) -> Map<Seq<char>, V>,
) -> Map<Seq<char>, V> {
    match layer {
        Some(c) if sets(c) => map(c),
        _ => Map::empty(),
    }
}

/// The configuration for the project at `project_root`: the defaults, then
/// the global layer and the project layer where they exist, each merged over
/// what came before (see [`merge_configs`]): for each setting, the project
/// layer's value when it sets it, else the global layer's, else the default.
pub fn layer_configs(project_root: &str, global: Option<ResolvedConfig>, project: Option<ResolvedConfig>) -> (r: ResolvedConfig)
    ensures
        r.project_root@ == project_root@,
        r.providers@ == layer_map(global, |c: ResolvedConfig| true, |c: ResolvedConfig| c.providers@).union_prefer_right(
            layer_map(project, |c: ResolvedConfig| true, |c: ResolvedConfig| c.providers@),
        ),
        r.default_provider@ == layered(
            project,
            global,
            |c: ResolvedConfig| c.default_provider@.len() > 0,
            |c: ResolvedConfig| c.default_provider@,
            Seq::<char>::empty(),
        ),
        r.permissions.default_level@ == layered(
            project,
            global,
            |c: ResolvedConfig| sets_permissions(c.permissions),
            |c: ResolvedConfig| c.permissions.default_level@,
            "ask"@,
        ),
        r.permissions.tools@ == layer_map(global, |c: ResolvedConfig| true, |c: ResolvedConfig| c.permissions.tools@).union_prefer_right(
            layer_map(project, |c: ResolvedConfig| true, |c: ResolvedConfig| c.permissions.tools@),
        ),
        string_views(r.permissions.shell_deny_patterns@) == layered(
            project,
            global,
            |c: ResolvedConfig| sets_deny_patterns(c.permissions),
            |c: ResolvedConfig| string_views(c.permissions.shell_deny_patterns@),
            default_deny_patterns(),
        ),
        r.permissions.allowed_paths@ == layered(
            project,
            global,
            |c: ResolvedConfig| c.permissions.allowed_paths@.len() > 0,
            |c: ResolvedConfig| c.permissions.allowed_paths@,
            Seq::<String>::empty(),
        ),
        r.context.max_project_context_lines == layered(
            project,
            global,
            |c: ResolvedConfig| c.context.max_project_context_lines != 200,
            |c: ResolvedConfig| c.context.max_project_context_lines,
            200usize,
        ),
        r.context.project_instruction_file@ == layered(
            project,
            global,
            |c: ResolvedConfig| c.context.project_instruction_file@ != "NIYA.md"@,
            |c: ResolvedConfig| c.context.project_instruction_file@,
            "NIYA.md"@,
        ),
        r.context.respect_gitignore == layered(
            project,
            global,
            |c: ResolvedConfig| !c.context.respect_gitignore,
            |c: ResolvedConfig| false,
            true,
        ),
        r.session.max_iterations == layered(
            project,
            global,
            |c: ResolvedConfig| c.session.max_iterations != 20,
            |c: ResolvedConfig| c.session.max_iterations,
            20usize,
        ),
        r.session.log_directory@ == layered(
            project,
            global,
            |c: ResolvedConfig| c.session.log_directory@ != ".niya/sessions"@,
            |c: ResolvedConfig| c.session.log_directory@,
            ".niya/sessions"@,
        ),
        r.session.shell_timeout == layered(
            project,
            global,
            |c: ResolvedConfig| c.session.shell_timeout != 30_000,
            |c: ResolvedConfig| c.session.shell_timeout,
            30_000u64,
        ),
        r.session.shell_output_limit == layered(
            project,
            global,
            |c: ResolvedConfig| c.session.shell_output_limit != 100_000,
            |c: ResolvedConfig| c.session.shell_output_limit,
            100_000usize,
        ),
        r.display.color == layered(project, global, |c: ResolvedConfig| !c.display.color, |c: ResolvedConfig| false, true),
        r.display.markdown == layered(project, global, |c: ResolvedConfig| !c.display.markdown, |c: ResolvedConfig| false, true),
        r.display.verbose == layered(project, global, |c: ResolvedConfig| c.display.verbose, |c: ResolvedConfig| true, false),
{
    let ghost g0 = global;
    let ghost p0 = project;
    let ghost e = Map::<Seq<char>, crate::config::ProviderConfig>::empty();
    let ghost te = Map::<Seq<char>, crate::config::ToolPermission>::empty();
    let mut config = ResolvedConfig::default();
    match global {
        Some(g) => {
            config = merge_configs(config, g);
        },
        None => {},
    }
    let ghost gp = match g0 {
        Some(g) => g.providers@,
        None => e,
    };
    let ghost gt = match g0 {
        Some(g) => g.permissions.tools@,
        None => te,
    };
    assert(config.providers@ =~= gp);
    assert(config.permissions.tools@ =~= gt);
    match project {
        Some(p) => {
            config = merge_configs(config, p);
        },
        None => {},
    }
    config.project_root = project_root.to_owned();
    assert(config.providers@ =~= gp.union_prefer_right(
        match p0 {
            Some(p) => p.providers@,
            None => e,
        },
    ));
    assert(config.permissions.tools@ =~= gt.union_prefer_right(
        match p0 {
            Some(p) => p.permissions.tools@,
            None => te,
        },
    ));
    config
}

/// The pattern of a reference to an environment variable, `${NAME}`.
pub open spec fn var_ref_pattern() -> Seq<char> {
    "\\$\\{(\\w+)\\}"@
}

/// The values of an environment, as character sequences.
pub open spec fn env_view(env: Map<Seq<char>, String>) -> Map<Seq<char>, Seq<char>> {
    env.map_values(|v: String| v@)
}

/// The value of `name` in `env`, or the empty string when it is not set.
pub fn env_value(env: &StringMap<String>, name: &str) -> (r: String)
    ensures
        r@ == if env@.contains_key(name@) {
            env@[name@]@
        } else {
            Seq::<char>::empty()
        },
{
    match env.get(name) {
        Some(v) => v.clone(),
        None => String::new(),
    }
}

/// Resolve `${VAR_NAME}` references in `input` from the variables in `env`;
/// a variable that is not set becomes the empty string.
pub fn resolve_env_vars(input: &str, env: &StringMap<String>) -> (r: String)
    ensures
        regex_compiles(var_ref_pattern()) ==> r@ == replace_captures(var_ref_pattern(), input@, env_view(env@)),
        !regex_compiles(var_ref_pattern()) ==> r@ == input@,
{
    match LinePattern::compile("\\$\\{(\\w+)\\}") {
        Ok(p) => p.replace_refs(input, env),
        Err(_) => to_owned_string(input),
    }
}

} // verus!
