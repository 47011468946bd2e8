use niya::builtin::{register_all, register_all_with_config, BuiltinTool};
use niya::file_tools::{edit_output, edit_plan, edit_request, read_access, read_output, read_request, write_output, write_request, FileReadTool};
use niya::json::{JsonNumber, JsonValue};
use niya::replace::{count_occurrences, replace_first_occurrence, replace_occurrences};
use niya::search::{admits, display_path, glob_output, glob_request, grep_request, is_binary, relative_matches, GrepSearch};
use niya::shell::{shell_output, shell_timed_out, ShellExecuteTool};
use niya::tool::ToolRegistry;

fn obj(members: Vec<(&str, JsonValue)>) -> JsonValue {
    JsonValue::Object(members.into_iter().map(|(k, v)| (k.to_string(), v)).collect())
}

fn s(v: &str) -> JsonValue {
    JsonValue::Str(v.to_string())
}

fn n(v: u64) -> JsonValue {
    JsonValue::Number(JsonNumber::Unsigned(v))
}

fn chars(t: &str) -> Vec<char> {
    t.chars().collect()
}

#[test]
fn file_read_numbers_the_selected_lines() {
    let r = read_output("test.txt", "line 1\nline 2\nline 3\n", 0, 2000);
    assert!(r.success);
    assert_eq!(r.output, "1\tline 1\n2\tline 2\n3\tline 3");
    assert!(matches!(r.metadata.get("line_count"), Some(JsonValue::Number(JsonNumber::Unsigned(3)))));
    assert!(matches!(r.metadata.get("truncated"), Some(JsonValue::Bool(false))));
    let w = read_output("t", "a\nb\nc\nd", 1, 2);
    assert_eq!(w.output, "2\tb\n3\tc");
    assert!(matches!(w.metadata.get("truncated"), Some(JsonValue::Bool(true))));
    assert_eq!(read_output("t", "a", 5, 2).output, "");
}

#[test]
fn reads_existing_file() {
    let root = "/tmp/niya-read-test";
    let q = read_request(&obj(vec![("file_path", s("test.txt"))])).unwrap();
    assert!(read_access(root, &q.file_path, Some("/tmp/niya-read-test/test.txt"), true, Some(root)).is_none());
    let result = read_output(&q.file_path, "line 1\nline 2\nline 3\n", q.offset, q.limit);
    assert!(result.success);
    assert!(result.output.contains("line 1"));
    assert!(result.output.contains("line 2"));
}

#[test]
fn returns_error_for_missing_file() {
    let root = "/tmp/niya-read-test";
    let q = read_request(&obj(vec![("file_path", s("nonexistent.txt"))])).unwrap();
    let result = read_access(root, &q.file_path, None, false, Some(root)).unwrap();
    assert!(!result.success);
}

#[test]
fn file_read_arguments_and_access() {
    let q = read_request(&obj(vec![("file_path", s("a.rs")), ("offset", n(4))])).unwrap();
    assert_eq!((q.file_path.as_str(), q.offset, q.limit), ("a.rs", 4, 2000));
    let e = read_request(&obj(vec![])).unwrap_err();
    assert_eq!(e.output, "Missing required parameter: file_path");
    assert!(read_access("/p", "a.rs", Some("/p/a.rs"), true, Some("/p")).is_none());
    assert_eq!(read_access("/p", "x.rs", None, false, Some("/p")).unwrap().output, "File not found: x.rs");
    assert_eq!(read_access("/p", "../e", Some("/e"), true, Some("/p")).unwrap().output, "Path is outside the project root");
    assert!(read_access("/p", "new.rs", None, true, None).is_none());
    assert_eq!(FileReadTool::new().schema().name, "file_read");
}

#[test]
fn file_write_reports_bytes_and_creation() {
    let (p, c) = write_request(&obj(vec![("file_path", s("a/b.txt")), ("content", s("héllo"))])).unwrap();
    assert_eq!((p.as_str(), c.as_str()), ("a/b.txt", "héllo"));
    let r = write_output(&p, &c, true);
    assert_eq!(r.output, "Created a/b.txt (6 bytes)");
    assert!(matches!(r.metadata.get("created"), Some(JsonValue::Bool(true))));
    assert_eq!(write_output("x", "", false).output, "Wrote x (0 bytes)");
    assert_eq!(write_request(&obj(vec![("file_path", s("x"))])).unwrap_err().output, "Missing required parameter: content");
}

#[test]
fn file_edit_counts_and_replaces() {
    let (t, c) = edit_plan("f", "a-b-a", "a", "X", true).unwrap();
    assert_eq!((t.as_str(), c), ("X-b-X", 2));
    let e = edit_plan("f", "a-b-a", "a", "X", false).unwrap_err();
    assert_eq!(e.output, "old_string found 2 times in f. Provide more context for a unique match, or set replace_all: true.");
    let e = edit_plan("f", "abc", "z", "X", false).unwrap_err();
    assert_eq!(e.output, "old_string not found in f. Make sure the text matches exactly.");
    let (t, c) = edit_plan("f", "abc", "b", "XY", false).unwrap();
    assert_eq!((t.as_str(), c), ("aXYc", 1));
    assert_eq!(edit_output("f", 2).output, "Edited f: 2 replacement(s) made");
    let q = edit_request(&obj(vec![("file_path", s("f")), ("old_string", s("a")), ("new_string", s("b"))])).unwrap();
    assert!(!q.replace_all);
}

#[test]
fn replacing_follows_str_semantics() {
    for (text, pat, rep) in [("aaa", "aa", "b"), ("abc", "", "-"), ("", "", "x"), ("héllo wörld", "ö", "o"), ("xyxy", "xy", "")] {
        assert_eq!(count_occurrences(&chars(text), &chars(pat)), text.matches(pat).count());
        let all: String = replace_occurrences(&chars(text), &chars(pat), &chars(rep)).into_iter().collect();
        assert_eq!(all, text.replace(pat, rep));
        let first: String = replace_first_occurrence(&chars(text), &chars(pat), &chars(rep)).into_iter().collect();
        assert_eq!(first, text.replacen(pat, rep, 1));
    }
}

#[test]
fn shell_output_formats_and_truncates() {
    let r = shell_output("hi\n", "", 0, true, 100);
    assert!(r.success);
    assert_eq!(r.output, "Exit code: 0\n\n--- stdout ---\nhi\n\n");
    let r = shell_output("abcdef", "uvwxyz", -1, false, 8);
    assert_eq!(
        r.output,
        "Exit code: -1\n\n--- stdout ---\nabcd\n\n--- stderr ---\nuvwx\n\n[Output truncated: showing first 8 of 12 bytes. Use file_read with offset/limit to see specific sections.]\n"
    );
    assert!(matches!(r.metadata.get("truncated"), Some(JsonValue::Bool(true))));
    assert!(matches!(r.metadata.get("exit_code"), Some(JsonValue::Number(JsonNumber::Signed(-1)))));
    let t = shell_timed_out(30000);
    assert_eq!(t.output, "Command timed out after 30000ms");
    let tool = ShellExecuteTool::with_limits(5, 6);
    let q = tool.request(&obj(vec![("command", s("ls")), ("cwd", s("sub"))]), "/p", "/c").unwrap();
    assert_eq!((q.command.as_str(), q.cwd.as_str(), q.timeout_ms), ("ls", "/p/sub", 5));
    assert_eq!(tool.output_limit(), 6);
}

#[test]
fn glob_results_are_relative_and_capped() {
    let (p, full) = glob_request(&obj(vec![("pattern", s("**/*.rs")), ("path", s("src"))]), "/p").unwrap();
    assert_eq!((p.as_str(), full.as_str()), ("**/*.rs", "/p/src/**/*.rs"));
    let rel = relative_matches(&vec!["/p/src/a.rs".to_string(), "/q/b.rs".to_string()], "/p");
    assert_eq!(rel, vec!["src/a.rs".to_string()]);
    let many: Vec<String> = (0..250).map(|i| format!("f{}", i)).collect();
    let r = glob_output("*", &many);
    assert_eq!(r.output.lines().count(), 200);
    assert!(matches!(r.metadata.get("match_count"), Some(JsonValue::Number(JsonNumber::Unsigned(250)))));
    assert_eq!(glob_output("*.zz", &vec![]).output, "No files matching pattern: *.zz");
}

#[test]
fn grep_collects_matches_up_to_the_limit() {
    let q = grep_request(&obj(vec![("pattern", s("fn \\w+")), ("max_results", n(2))]), "/p").unwrap();
    assert_eq!((q.search_path.as_str(), q.max_results), ("/p", 2));
    let mut g = match GrepSearch::start(&q.pattern, q.max_results) {
        Ok(g) => g,
        Err(e) => panic!("{}", e.output),
    };
    g.count_file();
    g.search_file("src/a.rs", "fn one() {}\nlet x = 1;\nfn two() {}\nfn three() {}\n");
    assert!(g.is_full());
    let r = g.finish(&q.pattern);
    assert_eq!(r.output, "src/a.rs:1: fn one() {}\nsrc/a.rs:3: fn two() {}");
    assert!(matches!(r.metadata.get("truncated"), Some(JsonValue::Bool(true))));
    assert!(matches!(r.metadata.get("files_searched"), Some(JsonValue::Number(JsonNumber::Unsigned(1)))));
    match GrepSearch::start("(", 5) {
        Err(bad) => assert!(bad.output.starts_with("Invalid regex: ")),
        Ok(_) => panic!("an unclosed group compiled"),
    }
    let empty = match GrepSearch::start("zzz", 5) {
        Ok(g) => g.finish("zzz"),
        Err(e) => panic!("{}", e.output),
    };
    assert_eq!(empty.output, "No matches for pattern: zzz");
}

#[test]
fn grep_filters_files() {
    assert!(admits(None, "/p/a.rs"));
    assert!(admits(Some("*.rs"), "/p/a.rs"));
    assert!(!admits(Some("*.rs"), "/p/a.txt"));
    assert!(admits(Some("[["), "/p/a.txt"));
    let mut bin = vec![1u8; 600];
    assert!(!is_binary(&bin));
    bin[10] = 0;
    assert!(is_binary(&bin));
    assert!(!is_binary(&[0u8; 100]));
    assert_eq!(display_path("/p/src/a.rs", "/p"), "src/a.rs");
    assert_eq!(display_path("/q/a.rs", "/p"), "/q/a.rs");
}

#[test]
fn builtin_tools_register_in_order() {
    let mut registry: ToolRegistry<BuiltinTool> = ToolRegistry::new();
    register_all(&mut registry);
    let names: Vec<String> = registry.all_schemas().into_iter().map(|s| s.name).collect();
    assert_eq!(names, vec!["file_read", "file_write", "file_edit", "shell_execute", "glob", "grep"]);
    let mut other: ToolRegistry<BuiltinTool> = ToolRegistry::new();
    register_all_with_config(&mut other, 1, 2);
    match other.get("shell_execute") {
        Some(BuiltinTool::Shell(t)) => assert_eq!(t.output_limit(), 2),
        _ => panic!("shell tool missing"),
    }
}

#[test]
fn grep_limit_counts_matches_exactly() {
    let mut none = match GrepSearch::start("fn", 0) {
        Ok(g) => g,
        Err(e) => panic!("{}", e.output),
    };
    none.search_file("a.rs", "fn one() {}\n");
    assert!(none.is_full());
    let r = none.finish("fn");
    assert!(matches!(r.metadata.get("match_count"), Some(JsonValue::Number(JsonNumber::Unsigned(0)))));
    assert!(matches!(r.metadata.get("truncated"), Some(JsonValue::Bool(true))));
    let mut exact = match GrepSearch::start("fn", 2) {
        Ok(g) => g,
        Err(e) => panic!("{}", e.output),
    };
    exact.search_file("a.rs", "fn one() {}\nfn two() {}\nlet x = 1;\n");
    assert!(!exact.is_full());
    let r = exact.finish("fn");
    assert_eq!(r.output, "a.rs:1: fn one() {}\na.rs:2: fn two() {}");
    assert!(matches!(r.metadata.get("truncated"), Some(JsonValue::Bool(false))));
}

#[test]
fn shell_output_cuts_on_character_boundaries() {
    let r = shell_output("ééé", "", 0, true, 5);
    assert!(r.output.starts_with("Exit code: 0\n\n--- stdout ---\né\n"));
    assert!(r.output.contains("showing first 2 of 6 bytes"));
    assert!(matches!(r.metadata.get("truncated"), Some(JsonValue::Bool(true))));
}

#[test]
fn file_read_window_never_overflows() {
    let r = read_output("t", "a\nb\nc", usize::MAX, usize::MAX);
    assert!(r.success);
    assert_eq!(r.output, "");
    let w = read_output("t", "a\nb\nc", 1, usize::MAX);
    assert_eq!(w.output, "2\tb\n3\tc");
    assert!(matches!(w.metadata.get("truncated"), Some(JsonValue::Bool(false))));
}
