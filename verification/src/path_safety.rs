//! Keeping user-supplied paths inside the project root.
use vstd::prelude::*;

use crate::paths::{components, file_name, is_absolute, join, parent, path_file_name, path_join, path_parent, path_starts_with, starts_with};
use crate::permission::PathProbe;
use crate::text::{chars_of, push_str, string_from_chars};

verus! {

/// Where `user_path` resolves to, or why it is refused, given what the file
/// system reported in `probe`.
pub open spec fn spec_resolve_within_root(probe: PathProbe, user_path: Seq<char>) -> Result<Seq<char>, Seq<char>> {
    match probe.root {
        Err(e) => Err("Failed to canonicalize project root: "@ + e@),
        Ok(root) => {
            let joined = path_join(root@, user_path);
            if probe.target_exists {
                match probe.target {
                    Err(e) => Err("Failed to canonicalize path: "@ + e@),
                    Ok(c) => if !path_starts_with(c@, root@) {
                        Err("Path is outside the project root"@)
                    } else {
                        Ok(c@)
                    },
                }
            } else {
                match path_parent(joined) {
                    None => Err("Invalid path"@),
                    Some(_) => match probe.parent {
                        Err(e) => Err("Parent directory does not exist: "@ + e@),
                        Ok(cp) => if !path_starts_with(cp@, root@) {
                            Err("Path is outside the project root"@)
                        } else {
                            match path_file_name(joined) {
                                None => Err("Invalid file path"@),
                                Some(name) => Ok(path_join(cp@, name)),
                            }
                        },
                    },
                }
            }
        },
    }
}

fn prefixed(prefix: &str, s: &str) -> (r: String)
    ensures
        r@ == prefix@ + s@,
{
    let mut v = chars_of(prefix);
    push_str(&mut v, s);
    string_from_chars(v.as_slice())
}

/// Resolve a user-supplied path against the project root and ensure it stays
/// within the root. `probe` reports what the file system said about the root
/// and about `user_path` joined to it (see [`PathProbe`]).
pub fn resolve_path_within_root(probe: &PathProbe, user_path: &str) -> (r: Result<String, String>)
    ensures
        match r {
            Ok(p) => spec_resolve_within_root(*probe, user_path@) == Ok::<Seq<char>, Seq<char>>(p@),
            Err(e) => spec_resolve_within_root(*probe, user_path@) == Err::<Seq<char>, Seq<char>>(e@),
        },
{
    let root = match &probe.root {
        Err(e) => {
            return Err(prefixed("Failed to canonicalize project root: ", e.as_str()));
        },
        Ok(r) => r,
    };
    let joined = join(root.as_str(), user_path);
    if probe.target_exists {
        return match &probe.target {
            Err(e) => Err(prefixed("Failed to canonicalize path: ", e.as_str())),
            Ok(c) => {
                if !starts_with(c.as_str(), root.as_str()) {
                    Err("Path is outside the project root".to_owned())
                } else {
                    Ok(c.clone())
                }
            },
        };
    }
    match parent(joined.as_str()) {
        None => Err("Invalid path".to_owned()),
        Some(_) => match &probe.parent {
            Err(e) => Err(prefixed("Parent directory does not exist: ", e.as_str())),
            Ok(cp) => {
                if !starts_with(cp.as_str(), root.as_str()) {
                    Err("Path is outside the project root".to_owned())
                } else {
                    match file_name(joined.as_str()) {
                        None => Err("Invalid file path".to_owned()),
                        Some(n) => Ok(join(cp.as_str(), n.as_str())),
                    }
                }
            },
        },
    }
}

/// A path that resolves always lies inside the canonical project root.
pub proof fn law_resolved_path_within_root(probe: PathProbe, user_path: Seq<char>)
    requires
        spec_resolve_within_root(probe, user_path) is Ok,
    ensures
        probe.root is Ok,
        path_starts_with(spec_resolve_within_root(probe, user_path)->Ok_0, probe.root->Ok_0@),
{
    let root = probe.root->Ok_0@;
    let joined = path_join(root, user_path);
    if !probe.target_exists {
        let cp = probe.parent->Ok_0@;
        crate::paths::lemma_file_name_plain(joined);
        crate::paths::lemma_join_keeps_prefix(cp, path_file_name(joined)->0, root);
    }
}

/// Resolving a path that was already resolved gives it back, while the file
/// system stays as it was. `probe` reports on `user_path`, `again` on the
/// resolved path, for the same project root; the canonical paths that the
/// file system reports are absolute, and canonicalizing a canonical path
/// gives it back, so `again` finds the resolved path itself when it exists
/// and the same parent directory when it does not.
pub proof fn law_resolving_is_idempotent(probe: PathProbe, again: PathProbe, user_path: Seq<char>)
    requires
        spec_resolve_within_root(probe, user_path) is Ok,
        probe.target matches Ok(c) ==> is_absolute(c@),
        probe.parent matches Ok(cp) ==> is_absolute(cp@),
        again.root == probe.root,
        again.target_exists == probe.target_exists,
        probe.target_exists ==> (again.target matches Ok(t) && t@ == spec_resolve_within_root(probe, user_path)->Ok_0),
        !probe.target_exists ==> again.parent == probe.parent,
    ensures
        spec_resolve_within_root(again, spec_resolve_within_root(probe, user_path)->Ok_0) == spec_resolve_within_root(
            probe,
            user_path,
        ),
{
    law_resolved_path_within_root(probe, user_path);
    let root = probe.root->Ok_0@;
    let p = spec_resolve_within_root(probe, user_path)->Ok_0;
    let joined = path_join(root, user_path);
    if !probe.target_exists {
        let cp = probe.parent->Ok_0@;
        let name = path_file_name(joined)->0;
        crate::paths::lemma_file_name_plain(joined);
        crate::paths::lemma_join_name_components(cp, name);
        assert(p == path_join(cp, name));
        assert(is_absolute(p));
        assert(path_join(root, p) == p);
        assert(components(p).drop_last() =~= components(cp));
    }
}

} // verus!
