use niya::path_safety::resolve_path_within_root;
use niya::paths::{file_name, join, parent, starts_with, strip_prefix};
use niya::permission::PathProbe;

#[test]
fn paths_follow_std_path_rules() {
    assert_eq!(join("/a", "b"), "/a/b");
    assert_eq!(join("/a/", "b"), "/a/b");
    assert_eq!(join("/a", "/etc"), "/etc");
    assert_eq!(parent("/a/b"), Some("/a".to_string()));
    assert_eq!(parent("/"), None);
    assert_eq!(parent("a"), Some("".to_string()));
    assert_eq!(file_name("/a/b.txt"), Some("b.txt".to_string()));
    assert_eq!(file_name("/a/.."), None);
    assert!(starts_with("/a/b/c", "/a/b"));
    assert!(!starts_with("/a/bc", "/a/b"));
    assert_eq!(strip_prefix("/a/b/c", "/a"), Some("b/c".to_string()));
    assert_eq!(strip_prefix("/x", "/a"), None);
}

fn probe(target_exists: bool, target: Result<&str, &str>, parent: Result<&str, &str>) -> PathProbe {
    PathProbe {
        root: Ok("/root/p".to_string()),
        target_exists,
        target: target.map(|s| s.to_string()).map_err(|s| s.to_string()),
        parent: parent.map(|s| s.to_string()).map_err(|s| s.to_string()),
    }
}

#[test]
fn resolved_paths_stay_inside_the_root() {
    assert_eq!(
        resolve_path_within_root(&probe(true, Ok("/root/p/src/a.rs"), Err("-")), "src/a.rs"),
        Ok("/root/p/src/a.rs".to_string())
    );
    assert_eq!(
        resolve_path_within_root(&probe(true, Ok("/etc/passwd"), Err("-")), "../../etc/passwd"),
        Err("Path is outside the project root".to_string())
    );
    assert_eq!(
        resolve_path_within_root(&probe(false, Err("-"), Ok("/root/p/src")), "src/new.rs"),
        Ok("/root/p/src/new.rs".to_string())
    );
    assert_eq!(
        resolve_path_within_root(&probe(false, Err("-"), Err("No such file")), "nope/new.rs"),
        Err("Parent directory does not exist: No such file".to_string())
    );
    let no_root = PathProbe {
        root: Err("gone".to_string()),
        target_exists: false,
        target: Err(String::new()),
        parent: Err(String::new()),
    };
    assert_eq!(
        resolve_path_within_root(&no_root, "a"),
        Err("Failed to canonicalize project root: gone".to_string())
    );
}

#[test]
fn resolving_a_resolved_path_gives_it_back() {
    let first = resolve_path_within_root(&probe(false, Err("-"), Ok("/root/p/src")), "src/new.rs").unwrap();
    assert_eq!(first, "/root/p/src/new.rs");
    let again = resolve_path_within_root(&probe(false, Err("-"), Ok("/root/p/src")), &first).unwrap();
    assert_eq!(again, first);
    let existing = resolve_path_within_root(&probe(true, Ok("/root/p/src/a.rs"), Err("-")), "./src/../src/a.rs").unwrap();
    let again = resolve_path_within_root(&probe(true, Ok("/root/p/src/a.rs"), Err("-")), &existing).unwrap();
    assert_eq!(again, existing);
}
