//! Permission gate.
//!
//! Gates every tool invocation by evaluating the configured permission policy.
//! Returns Allow, Deny, or Ask decisions. Shell deny-list patterns and path
//! boundary checks are enforced here. What the file system says about a
//! path (canonical forms, existence) arrives as a [`PathProbe`].
use vstd::prelude::*;

use crate::config::{ArgCondition, PermissionPolicy, ToolPermission};
use crate::json::{json_pretty, pretty_text, spec_get_str, JsonValue, JsonView};
use crate::paths::{
    file_name, join, parent, path_file_name, path_join, path_parent, path_starts_with, starts_with,
};
use crate::pattern::{regex_compiles, regex_finds, regex_is_match};
use crate::text::{chars_of, push_str, str_eq, string_from_chars, string_views};
use crate::types::{PermissionDecision, ToolSchema};

verus! {

/// What the file system reported about the paths involved in one path check.
///
/// For a project root `R` and a user path `p`, with `J = join(C, p)` where `C`
/// is the canonical form of `R`:
/// `root` is `canonicalize(R)`, `target_exists` is `exists(J)`, `target` is
/// `canonicalize(J)` and `parent` is `canonicalize(parent(J))`; an `Err`
/// holds the text of the I/O error. Fields that a check does not need may hold
/// anything.
#[derive(Debug)]
pub struct PathProbe {
    pub root: Result<String, String>,
    pub target_exists: bool,
    pub target: Result<String, String>,
    pub parent: Result<String, String>,
}

/// The paths that a [`PathProbe`] for `canonical_root` and `user_path` asks
/// about: the joined path, and its parent when it has one.
pub fn probe_targets(canonical_root: &str, user_path: &str) -> (r: (String, Option<String>))
    ensures
        r.0@ == path_join(canonical_root@, user_path@),
        match r.1 {
            Some(p) => path_parent(r.0@) == Some(p@),
            None => path_parent(r.0@) is None,
        },
{
    let joined = join(canonical_root, user_path);
    let p = parent(joined.as_str());
    (joined, p)
}

/// A permission decision, with texts as character sequences.
pub enum DecisionView {
    Allow,
    Deny(Seq<char>),
    Ask(Seq<char>),
}

pub open spec fn decision_view(d: PermissionDecision) -> DecisionView {
    match d {
        PermissionDecision::Allow => DecisionView::Allow,
        PermissionDecision::Deny { reason } => DecisionView::Deny(reason@),
        PermissionDecision::Ask { message } => DecisionView::Ask(message@),
    }
}

/// Whether `name` is one of the tools whose `file_path` argument is checked.
pub open spec fn is_file_tool(name: Seq<char>) -> bool {
    name == "file_read"@ || name == "file_write"@ || name == "file_edit"@
}

/// The first deny pattern that compiles and matches `cmd`.
pub open spec fn first_deny_match(patterns: Seq<Seq<char>>, cmd: Seq<char>) -> Option<Seq<char>>
    decreases patterns.len(),
{
    if patterns.len() == 0 {
        None
    } else if regex_compiles(patterns[0]) && regex_finds(patterns[0], cmd) {
        Some(patterns[0])
    } else {
        first_deny_match(patterns.drop_first(), cmd)
    }
}

/// Whether the target path lies under one of the allowed paths, each taken
/// relative to the canonical root.
pub open spec fn within_allowed(target: Seq<char>, root: Seq<char>, allowed: Seq<Seq<char>>) -> bool {
    exists|i: int| 0 <= i < allowed.len() && path_starts_with(target, path_join(root, #[trigger] allowed[i]))
}

/// The path that a file tool would touch, or why it cannot be resolved.
pub open spec fn resolved_target(probe: PathProbe, root: Seq<char>, file_path: Seq<char>) -> Result<Seq<char>, Seq<char>> {
    let joined = path_join(root, file_path);
    if probe.target_exists {
        match probe.target {
            Ok(t) => Ok(t@),
            Err(_) => Err("Failed to resolve target path"@),
        }
    } else {
        match path_parent(joined) {
            None => Err("Invalid target path"@),
            Some(_) => match probe.parent {
                Err(_) => Err("Parent path does not exist"@),
                Ok(cp) => match path_file_name(joined) {
                    None => Err("Invalid target file name"@),
                    Some(name) => Ok(path_join(cp@, name)),
                },
            },
        }
    }
}

/// Why a file tool's `file_path` is refused, if it is.
pub open spec fn path_denial(probe: PathProbe, file_path: Seq<char>, allowed: Seq<Seq<char>>) -> Option<Seq<char>> {
    match probe.root {
        Err(_) => Some("Failed to resolve project root"@),
        Ok(root) => match resolved_target(probe, root@, file_path) {
            Err(reason) => Some(reason),
            Ok(t) => if !path_starts_with(t, root@) {
                Some("Path is outside the project root"@)
            } else if allowed.len() > 0 && !within_allowed(t, root@, allowed) {
                Some("Path is outside allowed_paths policy"@)
            } else {
                None
            },
        },
    }
}

/// Whether an auto-approve condition holds for the call's arguments.
pub open spec fn condition_holds(c: ArgCondition, args: JsonView) -> bool {
    match spec_get_str(args, c.arg@) {
        Some(v) => regex_compiles(c.matches@) && regex_finds(c.matches@, v),
        None => false,
    }
}

/// Whether some auto-approve condition of the tool holds.
pub open spec fn any_condition_holds(conds: Seq<ArgCondition>, args: JsonView) -> bool {
    exists|i: int| 0 <= i < conds.len() && condition_holds(#[trigger] conds[i], args)
}

/// The permission level that applies to a tool.
pub open spec fn tool_level(policy: PermissionPolicy, name: Seq<char>) -> Seq<char> {
    if policy.tools@.contains_key(name) {
        policy.tools@[name].level@
    } else {
        policy.default_level@
    }
}

/// The message of an approval request.
pub open spec fn ask_message(name: Seq<char>, args_text: Seq<char>) -> Seq<char> {
    "Allow "@ + name + " with args "@ + args_text + "?"@
}

/// The deny pattern that refuses a shell call, if one does.
pub open spec fn deny_pattern_hit(policy: PermissionPolicy, name: Seq<char>, args: JsonView) -> Option<Seq<char>> {
    if name == "shell_execute"@ {
        match spec_get_str(args, "command"@) {
            Some(cmd) => first_deny_match(string_views(policy.shell_deny_patterns@), cmd),
            None => None,
        }
    } else {
        None
    }
}

/// Why the path of a file tool's call is refused, if it is.
pub open spec fn path_check_hit(
    policy: PermissionPolicy,
    name: Seq<char>,
    args: JsonView,
    probe: PathProbe,
) -> Option<Seq<char>> {
    if is_file_tool(name) {
        match spec_get_str(args, "file_path"@) {
            Some(fp) => path_denial(probe, fp, string_views(policy.allowed_paths@)),
            None => None,
        }
    } else {
        None
    }
}

/// The decision for a call of tool `name` with arguments `args`.
pub open spec fn decide(
    policy: PermissionPolicy,
    approved: Set<Seq<char>>,
    name: Seq<char>,
    args: JsonView,
    probe: PathProbe,
) -> DecisionView {
    let deny_hit = deny_pattern_hit(policy, name, args);
    let path_hit = path_check_hit(policy, name, args, probe);
    let level = tool_level(policy, name);
    if deny_hit is Some {
        DecisionView::Deny("Command matches deny pattern: "@ + deny_hit->0)
    } else if path_hit is Some {
        DecisionView::Deny(path_hit->0)
    } else if approved.contains(name) {
        DecisionView::Allow
    } else if level == "deny"@ {
        DecisionView::Deny("Tool is disabled by policy"@)
    } else if level == "auto"@ {
        DecisionView::Allow
    } else if policy.tools@.contains_key(name) && any_condition_holds(
        policy.tools@[name].auto_approve_when@,
        args,
    ) {
        DecisionView::Allow
    } else {
        DecisionView::Ask(ask_message(name, json_pretty(args)))
    }
}

/// The permission gate that checks every tool invocation.
#[derive(Debug)]
pub struct PermissionGate {
    policy: PermissionPolicy,
    project_root: String,
    /// Tools auto-approved for this session (via an "always" answer).
    session_overrides: Vec<String>,
}

impl PermissionGate {
    /// The policy this permission gate enforces.
    pub closed spec fn policy(&self) -> PermissionPolicy {
        self.policy
    }

    /// The project root this permission gate was made for.
    pub closed spec fn project_root(&self) -> Seq<char> {
        self.project_root@
    }

    /// The tools approved for the rest of the session.
    pub closed spec fn approved(&self) -> Set<Seq<char>> {
        string_views(self.session_overrides@).to_set()
    }

    /// A gate for `policy` in the project at `project_root`, with no session
    /// approvals yet.
    pub fn new(policy: PermissionPolicy, project_root: &str) -> (g: PermissionGate)
        ensures
            g.policy() == policy,
            g.project_root() == project_root@,
            g.approved() == Set::<Seq<char>>::empty(),
    {
        let g = PermissionGate {
            policy,
            project_root: project_root.to_owned(),
            session_overrides: Vec::new(),
        };
        assert(string_views(g.session_overrides@) =~= Seq::<Seq<char>>::empty());
        assert(g.approved() =~= Set::<Seq<char>>::empty());
        g
    }

    fn is_session_approved(&self, name: &str) -> (r: bool)
        ensures
            r == self.approved().contains(name@),
    {
        let mut i: usize = 0;
        while i < self.session_overrides.len()
            invariant
                i <= self.session_overrides@.len(),
                forall|j: int| 0 <= j < i ==> self.session_overrides@[j]@ != name@,
            decreases self.session_overrides@.len() - i,
        {
            if str_eq(self.session_overrides[i].as_str(), name) {
                assert(string_views(self.session_overrides@)[i as int] == name@);
                return true;
            }
            i = i + 1;
        }
        proof {
            if self.approved().contains(name@) {
                let j = choose|j: int|
                    0 <= j < string_views(self.session_overrides@).len() && string_views(
                        self.session_overrides@,
                    )[j] == name@;
                assert(self.session_overrides@[j]@ == name@);
            }
        }
        false
    }

    /// Mark a tool as auto-approved for the rest of this session.
    pub fn session_approve(&mut self, tool_name: &str)
        ensures
            final(self).approved() == old(self).approved().insert(tool_name@),
            final(self).policy() == old(self).policy(),
            final(self).project_root() == old(self).project_root(),
    {
        if !self.is_session_approved(tool_name) {
            let ghost before = string_views(self.session_overrides@);
            self.session_overrides.push(tool_name.to_owned());
            assert(string_views(self.session_overrides@) =~= before.push(tool_name@));
            proof {
                assert(before.push(tool_name@).to_set() =~= before.to_set().insert(tool_name@)) by {
                    assert forall|x: Seq<char>| before.push(tool_name@).to_set().contains(x) == before.to_set().insert(tool_name@).contains(x) by {
                        if before.push(tool_name@).contains(x) && x != tool_name@ {
                            let j = choose|j: int| 0 <= j < before.push(tool_name@).len() && before.push(tool_name@)[j] == x;
                            assert(before[j] == x);
                        }
                        if before.contains(x) {
                            let j = choose|j: int| 0 <= j < before.len() && before[j] == x;
                            assert(before.push(tool_name@)[j] == x);
                        }
                        if x == tool_name@ {
                            assert(before.push(tool_name@)[before.len() as int] == x);
                        }
                    }
                }
            }
        } else {
            assert(self.approved().insert(tool_name@) =~= self.approved());
        }
    }

    /// Check whether a tool call is permitted. `probe` reports on the path in
    /// the call's `file_path` argument; an approval request shows the
    /// pretty-printed JSON text of `args`.
    pub fn check(&self, tool: &ToolSchema, args: &JsonValue, probe: &PathProbe) -> (r: PermissionDecision)
        ensures
            decision_view(r) == decide(self.policy(), self.approved(), tool.name@, args@, *probe),
    {
        let name = tool.name.as_str();
        if str_eq(name, "shell_execute") {
            match args.get_str("command") {
                Some(cmd) => match first_deny_exec(&self.policy.shell_deny_patterns, cmd) {
                    Some(i) => {
                        let mut v = chars_of("Command matches deny pattern: ");
                        push_str(&mut v, self.policy.shell_deny_patterns[i].as_str());
                        return PermissionDecision::Deny { reason: string_from_chars(v.as_slice()) };
                    },
                    None => {},
                },
                None => {},
            }
        }
        if str_eq(name, "file_read") || str_eq(name, "file_write") || str_eq(name, "file_edit") {
            match args.get_str("file_path") {
                Some(fp) => match path_denial_exec(probe, fp, &self.policy.allowed_paths) {
                    Some(reason) => {
                        return PermissionDecision::Deny { reason };
                    },
                    None => {},
                },
                None => {},
            }
        }
        if self.is_session_approved(name) {
            return PermissionDecision::Allow;
        }
        let entry: Option<&ToolPermission> = self.policy.tools.get(name);
        let level: &str = match entry {
            Some(tp) => tp.level.as_str(),
            None => self.policy.default_level.as_str(),
        };
        if str_eq(level, "deny") {
            return PermissionDecision::Deny { reason: "Tool is disabled by policy".to_owned() };
        }
        if str_eq(level, "auto") {
            return PermissionDecision::Allow;
        }
        match entry {
            Some(tp) => {
                if any_condition_exec(&tp.auto_approve_when, args) {
                    return PermissionDecision::Allow;
                }
            },
            None => {},
        }
        let mut m = chars_of("Allow ");
        push_str(&mut m, name);
        push_str(&mut m, " with args ");
        let pretty = pretty_text(args);
        push_str(&mut m, pretty.as_str());
        push_str(&mut m, "?");
        PermissionDecision::Ask { message: string_from_chars(m.as_slice()) }
    }
}

/// The index of the first deny pattern that compiles and matches `cmd`.
fn first_deny_exec(patterns: &Vec<String>, cmd: &str) -> (r: Option<usize>)
    ensures
        match r {
            Some(i) => i < patterns@.len() && first_deny_match(string_views(patterns@), cmd@) == Some(patterns@[i as int]@),
            None => first_deny_match(string_views(patterns@), cmd@) is None,
        },
{
    let ghost ps = string_views(patterns@);
    let mut i: usize = 0;
    assert(ps.subrange(0, ps.len() as int) =~= ps);
    while i < patterns.len()
        invariant
            i <= patterns@.len(),
            ps == string_views(patterns@),
            first_deny_match(ps, cmd@) == first_deny_match(ps.subrange(i as int, ps.len() as int), cmd@),
        decreases patterns@.len() - i,
    {
        let ghost rest = ps.subrange(i as int, ps.len() as int);
        assert(rest[0] == patterns@[i as int]@);
        let m = regex_is_match(patterns[i].as_str(), cmd);
        if m == Some(true) {
            return Some(i);
        }
        assert(rest.drop_first() =~= ps.subrange(i + 1, ps.len() as int));
        i = i + 1;
    }
    None
}

/// Whether some condition of the list holds for `args`.
fn any_condition_exec(conds: &Vec<ArgCondition>, args: &JsonValue) -> (r: bool)
    ensures
        r == any_condition_holds(conds@, args@),
{
    let mut i: usize = 0;
    while i < conds.len()
        invariant
            i <= conds@.len(),
            forall|j: int| 0 <= j < i ==> !condition_holds(#[trigger] conds@[j], args@),
        decreases conds@.len() - i,
    {
        let c = &conds[i];
        match args.get_str(c.arg.as_str()) {
            Some(v) => {
                if regex_is_match(c.matches.as_str(), v) == Some(true) {
                    assert(condition_holds(conds@[i as int], args@));
                    return true;
                }
            },
            None => {},
        }
        i = i + 1;
    }
    false
}

/// Whether `target` lies under one of `allowed` relative to `root`.
fn within_allowed_exec(target: &str, root: &str, allowed: &Vec<String>) -> (r: bool)
    ensures
        r == within_allowed(target@, root@, string_views(allowed@)),
{
    let mut i: usize = 0;
    while i < allowed.len()
        invariant
            i <= allowed@.len(),
            forall|j: int| 0 <= j < i ==> !path_starts_with(target@, path_join(root@, #[trigger] string_views(allowed@)[j])),
        decreases allowed@.len() - i,
    {
        let base = join(root, allowed[i].as_str());
        if starts_with(target, base.as_str()) {
            assert(string_views(allowed@)[i as int] == allowed@[i as int]@);
            return true;
        }
        assert(string_views(allowed@)[i as int] == allowed@[i as int]@);
        i = i + 1;
    }
    false
}

fn resolved_target_exec(probe: &PathProbe, root: &str, file_path: &str) -> (r: Result<String, String>)
    ensures
        match r {
            Ok(t) => resolved_target(*probe, root@, file_path@) == Ok::<Seq<char>, Seq<char>>(t@),
            Err(e) => resolved_target(*probe, root@, file_path@) == Err::<Seq<char>, Seq<char>>(e@),
        },
{
    let joined = join(root, file_path);
    if probe.target_exists {
        match &probe.target {
            Ok(t) => Ok(t.clone()),
            Err(_) => Err("Failed to resolve target path".to_owned()),
        }
    } else {
        match parent(joined.as_str()) {
            None => Err("Invalid target path".to_owned()),
            Some(_) => match &probe.parent {
                Err(_) => Err("Parent path does not exist".to_owned()),
                Ok(cp) => match file_name(joined.as_str()) {
                    None => Err("Invalid target file name".to_owned()),
                    Some(n) => Ok(join(cp.as_str(), n.as_str())),
                },
            },
        }
    }
}

fn path_denial_exec(probe: &PathProbe, file_path: &str, allowed: &Vec<String>) -> (r: Option<String>)
    ensures
        match r {
            Some(s) => path_denial(*probe, file_path@, string_views(allowed@)) == Some(s@),
            None => path_denial(*probe, file_path@, string_views(allowed@)) is None,
        },
{
    match &probe.root {
        Err(_) => Some("Failed to resolve project root".to_owned()),
        Ok(root) => match resolved_target_exec(probe, root.as_str(), file_path) {
            Err(reason) => Some(reason),
            Ok(t) => {
                if !starts_with(t.as_str(), root.as_str()) {
                    Some("Path is outside the project root".to_owned())
                } else if allowed.len() > 0 && !within_allowed_exec(t.as_str(), root.as_str(), allowed) {
                    Some("Path is outside allowed_paths policy".to_owned())
                } else {
                    None
                }
            },
        },
    }
}

/// A tool approved for the session is allowed as if its level were `auto`:
/// whenever neither the deny patterns nor the path check refuse the call.
pub proof fn law_session_approval_allows(
    policy: PermissionPolicy,
    approved: Set<Seq<char>>,
    name: Seq<char>,
    args: JsonView,
    probe: PathProbe,
)
    requires
        approved.contains(name),
        deny_pattern_hit(policy, name, args) is None,
        path_check_hit(policy, name, args, probe) is None,
    ensures
        decide(policy, approved, name, args, probe) == DecisionView::Allow,
{
}

/// A shell command that a deny pattern matches is refused, naming the first
/// such pattern, whatever the tool's level and even after the shell was
/// approved for the session.
pub proof fn law_deny_pattern_refuses(
    policy: PermissionPolicy,
    approved: Set<Seq<char>>,
    args: JsonView,
    probe: PathProbe,
    command: Seq<char>,
    pattern: Seq<char>,
)
    requires
        spec_get_str(args, "command"@) == Some(command),
        first_deny_match(string_views(policy.shell_deny_patterns@), command) == Some(pattern),
    ensures
        decide(policy, approved, "shell_execute"@, args, probe) == DecisionView::Deny(
            "Command matches deny pattern: "@ + pattern,
        ),
{
}

/// A tool at level `auto` is allowed when no deny pattern and no path check
/// refuses it.
pub proof fn law_auto_level_allows(
    policy: PermissionPolicy,
    approved: Set<Seq<char>>,
    name: Seq<char>,
    args: JsonView,
    probe: PathProbe,
)
    requires
        tool_level(policy, name) == "auto"@,
        name != "shell_execute"@,
        !is_file_tool(name),
    ensures
        decide(policy, approved, name, args, probe) == DecisionView::Allow,
{
    reveal_strlit("auto");
    reveal_strlit("deny");
    assert("auto"@[0] != "deny"@[0]);
}

/// A tool at level `ask` whose call meets no auto-approve condition and that
/// no check refuses asks the user, showing the tool and its arguments.
pub proof fn law_ask_level_asks(
    policy: PermissionPolicy,
    approved: Set<Seq<char>>,
    name: Seq<char>,
    args: JsonView,
    probe: PathProbe,
)
    requires
        !approved.contains(name),
        tool_level(policy, name) == "ask"@,
        name != "shell_execute"@,
        !is_file_tool(name),
        !(policy.tools@.contains_key(name) && any_condition_holds(policy.tools@[name].auto_approve_when@, args)),
    ensures
        decide(policy, approved, name, args, probe) == DecisionView::Ask(ask_message(name, json_pretty(args))),
{
    reveal_strlit("ask");
    reveal_strlit("auto");
    reveal_strlit("deny");
    assert("ask"@.len() != "auto"@.len());
    assert("ask"@.len() != "deny"@.len());
}

/// A file tool whose path resolves outside the project root is refused,
/// even after the tool was approved for the session.
pub proof fn law_path_outside_root_refused(
    policy: PermissionPolicy,
    approved: Set<Seq<char>>,
    name: Seq<char>,
    args: JsonView,
    probe: PathProbe,
    file_path: Seq<char>,
    root: String,
    target: Seq<char>,
)
    requires
        is_file_tool(name),
        spec_get_str(args, "file_path"@) == Some(file_path),
        probe.root == Ok::<String, String>(root),
        resolved_target(probe, root@, file_path) == Ok::<Seq<char>, Seq<char>>(target),
        !path_starts_with(target, root@),
    ensures
        decide(policy, approved, name, args, probe) == DecisionView::Deny(
            "Path is outside the project root"@,
        ),
{
    reveal_strlit("shell_execute");
    reveal_strlit("file_read");
    reveal_strlit("file_write");
    reveal_strlit("file_edit");
    assert(name != "shell_execute"@) by {
        assert(name.len() != "shell_execute"@.len());
    }
}

/// A tool at level `deny` is refused when no earlier check decides the call.
pub proof fn law_disabled_tool_refused(
    policy: PermissionPolicy,
    approved: Set<Seq<char>>,
    name: Seq<char>,
    args: JsonView,
    probe: PathProbe,
)
    requires
        !approved.contains(name),
        deny_pattern_hit(policy, name, args) is None,
        path_check_hit(policy, name, args, probe) is None,
        tool_level(policy, name) == "deny"@,
    ensures
        decide(policy, approved, name, args, probe) == DecisionView::Deny(
            "Tool is disabled by policy"@,
        ),
{
}

/// A tool at level `ask` is allowed without asking when one of its
/// auto-approve conditions holds and no earlier check decides the call.
pub proof fn law_condition_auto_approves(
    policy: PermissionPolicy,
    approved: Set<Seq<char>>,
    name: Seq<char>,
    args: JsonView,
    probe: PathProbe,
    i: int,
)
    requires
        !approved.contains(name),
        deny_pattern_hit(policy, name, args) is None,
        path_check_hit(policy, name, args, probe) is None,
        policy.tools@.contains_key(name),
        policy.tools@[name].level@ == "ask"@,
        0 <= i < policy.tools@[name].auto_approve_when@.len(),
        condition_holds(policy.tools@[name].auto_approve_when@[i], args),
    ensures
        decide(policy, approved, name, args, probe) == DecisionView::Allow,
{
    reveal_strlit("ask");
    reveal_strlit("auto");
    reveal_strlit("deny");
    assert("ask"@.len() != "auto"@.len());
    assert("ask"@.len() != "deny"@.len());
}

/// A file tool's target that resolves inside the project root, under the
/// root joined with one of the allowed paths, is not refused by the path
/// check: allowed paths are read relative to the project root.
pub proof fn law_allowed_path_admits(probe: PathProbe, file_path: Seq<char>, allowed: Seq<Seq<char>>, target: Seq<char>, a: int)
    requires
        probe.root is Ok,
        resolved_target(probe, probe.root->Ok_0@, file_path) == Ok::<Seq<char>, Seq<char>>(target),
        path_starts_with(target, probe.root->Ok_0@),
        0 <= a < allowed.len(),
        path_starts_with(target, path_join(probe.root->Ok_0@, allowed[a])),
    ensures
        path_denial(probe, file_path, allowed) is None,
{
    assert(within_allowed(target, probe.root->Ok_0@, allowed));
}

/// A file tool's target that resolves inside the project root but under
/// none of the allowed paths (when there are any) is refused as outside
/// them.
pub proof fn law_outside_allowed_paths_refused(probe: PathProbe, file_path: Seq<char>, allowed: Seq<Seq<char>>, target: Seq<char>)
    requires
        probe.root is Ok,
        resolved_target(probe, probe.root->Ok_0@, file_path) == Ok::<Seq<char>, Seq<char>>(target),
        path_starts_with(target, probe.root->Ok_0@),
        allowed.len() > 0,
        forall|a: int| 0 <= a < allowed.len() ==> !path_starts_with(target, path_join(probe.root->Ok_0@, #[trigger] allowed[a])),
    ensures
        path_denial(probe, file_path, allowed) == Some("Path is outside allowed_paths policy"@),
{
}

} // verus!
