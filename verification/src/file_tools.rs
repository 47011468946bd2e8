//! The file tools: read (with line numbers), write, and targeted
//! search-and-replace edit. Each tool reads its arguments from the call's
//! JSON input and builds its result from what the file system reported; the
//! file system itself is used at the edge of the program.
use vstd::prelude::*;

use crate::context::byte_len;
use crate::json::{json_str, json_u64, spec_get_bool, spec_get_str, spec_get_u64, JsonValue, JsonView, NumberView};
use crate::paths::{components, cur_comp, is_absolute, path_components, path_join, path_starts_with, join, starts_with};
use crate::permission::PathProbe;
use crate::replace::{count_matches, count_occurrences, replace_all, replace_first, replace_first_occurrence, replace_occurrences};
use crate::string_map::{has_key, json_pairs};
use crate::text::{chars_of, decimal, join_chars, join_on, lines_of, push_all, push_str, str_lines, string_from_chars, u64_decimal, char_seqs};
use crate::tool_schema::{missing_parameter, params_json, params_value, prop_json, prop_value};
use crate::types::{result_view, schema_view, ResultView, SchemaView, ToolResult, ToolSchema};

verus! {

/// `o`, or `d` when it is absent.
pub open spec fn u64_or(o: Option<u64>, d: u64) -> u64 {
    match o {
        Some(n) => n,
        None => d,
    }
}

/// A failed result with `output` and no metadata.
pub open spec fn failed(output: Seq<char>) -> ResultView {
    ResultView { success: false, output, metadata: Seq::empty() }
}

/// Adds a metadata entry under a key the result does not have yet.
pub(crate) fn add_meta(r: ToolResult, key: &str, value: JsonValue) -> (out: ToolResult)
    requires
        forall|i: int| 0 <= i < json_pairs(r.metadata).len() ==> json_pairs(r.metadata)[i].0 != key@,
    ensures
        result_view(out) == (ResultView {
            success: r.success,
            output: r.output@,
            metadata: json_pairs(r.metadata).push((key@, value@)),
        }),
{
    proof {
        if has_key(r.metadata.pairs(), key@) {
            let i = choose|i: int| 0 <= i < r.metadata.pairs().len() && #[trigger] r.metadata.pairs()[i].0 == key@;
            assert(json_pairs(r.metadata)[i].0 == key@);
        }
    }
    r.with_meta(key, value)
}

// ---------------------------------------------------------------------------
// file_read
// ---------------------------------------------------------------------------

/// The schema of the file read tool.
pub open spec fn file_read_schema() -> SchemaView {
    SchemaView {
        name: "file_read"@,
        description: "Read the contents of a file. Returns the content with line numbers."@,
        parameters: params_json(
            seq!["file_path"@],
            seq![
                ("file_path"@, prop_json("string"@, "Path to the file to read (relative to project root)"@)),
                ("offset"@, prop_json("integer"@, "Line number to start from (0-based)"@)),
                ("limit"@, prop_json("integer"@, "Maximum number of lines to return (default: 2000)"@)),
            ],
        ),
    }
}

/// Reads a file with line numbers.
#[derive(Debug)]
pub struct FileReadTool {
    schema: ToolSchema,
}

impl FileReadTool {
    pub closed spec fn spec_schema(&self) -> SchemaView {
        schema_view(self.schema)
    }

    pub fn new() -> (r: Self)
        ensures
            r.spec_schema() == file_read_schema(),
    {
        let mut req: Vec<String> = Vec::new();
        req.push("file_path".to_owned());
        let mut props: Vec<(String, JsonValue)> = Vec::new();
        props.push(("file_path".to_owned(), prop_value("string", "Path to the file to read (relative to project root)")));
        props.push(("offset".to_owned(), prop_value("integer", "Line number to start from (0-based)")));
        props.push(("limit".to_owned(), prop_value("integer", "Maximum number of lines to return (default: 2000)")));
        let parameters = params_value(req, props);
        let schema = ToolSchema {
            name: "file_read".to_owned(),
            description: "Read the contents of a file. Returns the content with line numbers.".to_owned(),
            parameters,
        };
        assert(schema_view(schema) =~= file_read_schema()) by {
            assert(crate::text::string_views(req@) =~= seq!["file_path"@]);
            assert(crate::json::member_views(props@) =~= file_read_schema().parameters->Object_0[2].1->Object_0);
        }
        FileReadTool { schema }
    }

    pub fn schema(&self) -> (r: &ToolSchema)
        ensures
            schema_view(*r) == self.spec_schema(),
    {
        &self.schema
    }
}

/// The arguments of a file read.
#[derive(Clone, Debug)]
pub struct ReadRequest {
    pub file_path: String,
    pub offset: usize,
    pub limit: usize,
}

/// The arguments of a file read: the path (required), the first line
/// (0-based, default 0) and the number of lines (default 2000).
pub fn read_request(input: &JsonValue) -> (r: Result<ReadRequest, ToolResult>)
    ensures
        match spec_get_str(input@, "file_path"@) {
            None => r matches Err(e) && result_view(e) == failed("Missing required parameter: "@ + "file_path"@),
            Some(fp) => r matches Ok(q) && q.file_path@ == fp && q.offset == u64_or(spec_get_u64(input@, "offset"@), 0) as usize
                && q.limit == u64_or(spec_get_u64(input@, "limit"@), 2000) as usize,
        },
{
    let file_path = match input.get_str("file_path") {
        Some(p) => p,
        None => return Err(missing_parameter("file_path")),
    };
    let offset = match input.get_u64("offset") {
        Some(n) => n as usize,
        None => 0,
    };
    let limit = match input.get_u64("limit") {
        Some(n) => n as usize,
        None => 2000,
    };
    Ok(ReadRequest { file_path: file_path.to_owned(), offset, limit })
}

/// Why reading `file_path` in the project at `project_root` is refused, if
/// it is. `target` is the canonical form of the joined path when it could be
/// formed, `target_exists` whether the joined path exists, and `root` the
/// canonical form of the project root when it could be formed.
pub open spec fn read_refusal(
    project_root: Seq<char>,
    file_path: Seq<char>,
    target: Option<Seq<char>>,
    target_exists: bool,
    root: Option<Seq<char>>,
) -> Option<Seq<char>> {
    let resolved = match target {
        Some(t) => Some(t),
        None => if target_exists {
            Some(path_join(project_root, file_path))
        } else {
            None
        },
    };
    match resolved {
        None => Some("File not found: "@ + file_path),
        Some(c) => {
            let cr = match root {
                Some(x) => x,
                None => project_root,
            };
            if path_starts_with(c, cr) {
                None
            } else {
                Some("Path is outside the project root"@)
            }
        },
    }
}

/// The failed result when reading `file_path` is refused (see [`read_refusal`]).
pub fn read_access(
    project_root: &str,
    file_path: &str,
    target: Option<&str>,
    target_exists: bool,
    root: Option<&str>,
) -> (r: Option<ToolResult>)
    ensures
        match read_refusal(
            project_root@,
            file_path@,
            match target {
                Some(t) => Some(t@),
                None => None,
            },
            target_exists,
            match root {
                Some(x) => Some(x@),
                None => None,
            },
        ) {
            None => r is None,
            Some(msg) => r matches Some(e) && result_view(e) == failed(msg),
        },
{
    let resolved: String = match target {
        Some(t) => t.to_owned(),
        None => {
            if !target_exists {
                let mut v = chars_of("File not found: ");
                push_str(&mut v, file_path);
                let s = string_from_chars(v.as_slice());
                return Some(ToolResult::err(s.as_str()));
            }
            join(project_root, file_path)
        },
    };
    let cr = match root {
        Some(x) => x,
        None => project_root,
    };
    if starts_with(resolved.as_str(), cr) {
        None
    } else {
        Some(ToolResult::err("Path is outside the project root"))
    }
}

/// The lines of `lines`, each prefixed with its number (counting from
/// `first`) and a tab.
pub open spec fn numbered(lines: Seq<Seq<char>>, first: nat) -> Seq<Seq<char>> {
    Seq::new(lines.len(), |i: int| decimal(first + i as nat) + "\t"@ + lines[i])
}

/// The end (exclusive) of the lines shown.
pub open spec fn window_end(total: nat, offset: nat, limit: nat) -> nat {
    if offset + limit < total {
        offset + limit
    } else {
        total
    }
}

/// The lines of `content` from `offset` (at most `limit` of them), numbered
/// from `offset + 1` and joined by newlines.
pub open spec fn read_text(content: Seq<char>, offset: nat, limit: nat) -> Seq<char> {
    let ls = str_lines(content);
    let total = ls.len();
    let start = if offset < total {
        offset
    } else {
        total
    };
    join_on(numbered(ls.subrange(start as int, window_end(total, offset, limit) as int), offset + 1), "\n"@)
}

/// The result of reading `file_path`, whose content is `content`.
pub fn read_output(file_path: &str, content: &str, offset: usize, limit: usize) -> (r: ToolResult)
    ensures
        result_view(r) == (ResultView {
            success: true,
            output: read_text(content@, offset as nat, limit as nat),
            metadata: seq![
                ("path"@, JsonView::Str(file_path@)),
                ("line_count"@, JsonView::Number(NumberView::Unsigned(str_lines(content@).len() as u64))),
                ("truncated"@, JsonView::Bool(window_end(str_lines(content@).len(), offset as nat, limit as nat) < str_lines(content@).len())),
            ],
        }),
{
    let cs = chars_of(content);
    let lines = lines_of(cs.as_slice());
    let ghost ls = str_lines(content@);
    let total = lines.len();
    let end = if offset < total && limit < total - offset {
        offset + limit
    } else {
        total
    };
    let start = if offset < total {
        offset
    } else {
        total
    };
    let ghost sel = ls.subrange(start as int, end as int);
    let mut out: Vec<Vec<char>> = Vec::new();
    let mut k: usize = start;
    while k < end
        invariant
            start <= k <= end <= total,
            total == ls.len(),
            char_seqs(lines@) == ls,
            sel == ls.subrange(start as int, end as int),
            end == window_end(total as nat, offset as nat, limit as nat),
            start < end ==> start == offset,
            char_seqs(out@) == numbered(sel, offset as nat + 1).subrange(0, k - start),
        decreases end - k,
    {
        let n = k + 1;
        let mut v = u64_decimal(n as u64);
        push_str(&mut v, "\t");
        push_all(&mut v, lines[k].as_slice());
        let ghost before = char_seqs(out@);
        let ghost vv = v@;
        out.push(v);
        proof {
            reveal_strlit("\t");
            assert(char_seqs(out@) =~= before.push(vv));
            assert(sel[k - start] == ls[k as int]);
            assert(numbered(sel, offset as nat + 1)[k - start] =~= vv);
            assert(numbered(sel, offset as nat + 1).subrange(0, k + 1 - start) =~= numbered(sel, offset as nat + 1).subrange(0, k - start).push(vv));
        }
        k = k + 1;
    }
    assert(numbered(sel, offset as nat + 1).subrange(0, end - start) =~= numbered(sel, offset as nat + 1));
    let nl = chars_of("\n");
    proof {
        reveal_strlit("\n");
    }
    let joined = join_chars(out.as_slice(), 0, out.len(), nl.as_slice());
    assert(char_seqs(out@).subrange(0, out@.len() as int) =~= char_seqs(out@));
    let text = string_from_chars(joined.as_slice());
    let r = ToolResult::ok(text.as_str());
    let r = add_meta(r, "path", json_str(file_path));
    proof {
        reveal_strlit("path");
        reveal_strlit("line_count");
        reveal_strlit("truncated");
    }
    assert(json_pairs(r.metadata).len() == 1 && json_pairs(r.metadata)[0].0 == "path"@);
    assert("path"@.len() != "line_count"@.len());
    let r = add_meta(r, "line_count", json_u64(total as u64));
    assert(json_pairs(r.metadata).len() == 2 && json_pairs(r.metadata)[1].0 == "line_count"@);
    let r = add_meta(r, "truncated", JsonValue::Bool(end < total));
    assert(json_pairs(r.metadata) =~= seq![
        ("path"@, JsonView::Str(file_path@)),
        ("line_count"@, JsonView::Number(NumberView::Unsigned(str_lines(content@).len() as u64))),
        ("truncated"@, JsonView::Bool(window_end(str_lines(content@).len(), offset as nat, limit as nat) < str_lines(content@).len())),
    ]);
    assert(r.output@ == read_text(content@, offset as nat, limit as nat));
    r
}

// ---------------------------------------------------------------------------
// file_write
// ---------------------------------------------------------------------------

/// The schema of the file write tool.
pub open spec fn file_write_schema() -> SchemaView {
    SchemaView {
        name: "file_write"@,
        description: "Create a new file or overwrite an existing file."@,
        parameters: params_json(
            seq!["file_path"@, "content"@],
            seq![
                ("file_path"@, prop_json("string"@, "Path to the file to create/overwrite"@)),
                ("content"@, prop_json("string"@, "Full content to write"@)),
            ],
        ),
    }
}

/// Creates or overwrites a file.
#[derive(Debug)]
pub struct FileWriteTool {
    schema: ToolSchema,
}

impl FileWriteTool {
    pub closed spec fn spec_schema(&self) -> SchemaView {
        schema_view(self.schema)
    }

    pub fn new() -> (r: Self)
        ensures
            r.spec_schema() == file_write_schema(),
    {
        let mut req: Vec<String> = Vec::new();
        req.push("file_path".to_owned());
        req.push("content".to_owned());
        let mut props: Vec<(String, JsonValue)> = Vec::new();
        props.push(("file_path".to_owned(), prop_value("string", "Path to the file to create/overwrite")));
        props.push(("content".to_owned(), prop_value("string", "Full content to write")));
        let parameters = params_value(req, props);
        let schema = ToolSchema {
            name: "file_write".to_owned(),
            description: "Create a new file or overwrite an existing file.".to_owned(),
            parameters,
        };
        assert(schema_view(schema) =~= file_write_schema()) by {
            assert(crate::text::string_views(req@) =~= seq!["file_path"@, "content"@]);
            assert(crate::json::member_views(props@) =~= file_write_schema().parameters->Object_0[2].1->Object_0);
        }
        FileWriteTool { schema }
    }

    pub fn schema(&self) -> (r: &ToolSchema)
        ensures
            schema_view(*r) == self.spec_schema(),
    {
        &self.schema
    }
}

/// The arguments of a file write: the path and the content, both required.
pub fn write_request(input: &JsonValue) -> (r: Result<(String, String), ToolResult>)
    ensures
        match (spec_get_str(input@, "file_path"@), spec_get_str(input@, "content"@)) {
            (None, _) => r matches Err(e) && result_view(e) == failed("Missing required parameter: "@ + "file_path"@),
            (Some(_), None) => r matches Err(e) && result_view(e) == failed("Missing required parameter: "@ + "content"@),
            (Some(fp), Some(c)) => r matches Ok(q) && q.0@ == fp && q.1@ == c,
        },
{
    let file_path = match input.get_str("file_path") {
        Some(p) => p,
        None => return Err(missing_parameter("file_path")),
    };
    let content = match input.get_str("content") {
        Some(c) => c,
        None => return Err(missing_parameter("content")),
    };
    Ok((file_path.to_owned(), content.to_owned()))
}

/// Whether walking the components `cs` of a relative path from depth `d`
/// never climbs above depth 0 (`..` climbs one level, `.` stays).
pub open spec fn stays_below(cs: Seq<Seq<char>>, d: int) -> bool
    decreases cs.len(),
{
    if cs.len() == 0 {
        true
    } else if cs[0] == seq!['.', '.'] {
        d > 0 && stays_below(cs.drop_first(), d - 1)
    } else if cs[0] == cur_comp() {
        stays_below(cs.drop_first(), d)
    } else {
        stays_below(cs.drop_first(), d + 1)
    }
}

/// Whether `p`, read against a directory, names something under it: it is
/// relative and its `..` components never climb above the start.
pub open spec fn lexically_inside(p: Seq<char>) -> bool {
    !is_absolute(p) && stays_below(components(p), 0)
}

/// Why writing to `file_path` is refused, if it is, given what the file
/// system reported in `probe` about the project root, the target and the
/// target's parent (see [`PathProbe`]): a path that leaves the root, by its
/// `..` components, by being absolute, or by a link that the target or its
/// existing parent resolves through. A parent that does not exist yet is
/// created by the write.
pub open spec fn write_refusal(probe: PathProbe, file_path: Seq<char>) -> Option<Seq<char>> {
    match probe.root {
        Err(e) => Some("Failed to canonicalize project root: "@ + e@),
        Ok(root) => if !lexically_inside(file_path) {
            Some("Path is outside the project root"@)
        } else if probe.target_exists {
            match probe.target {
                Err(e) => Some("Failed to canonicalize path: "@ + e@),
                Ok(c) => if path_starts_with(c@, root@) {
                    None
                } else {
                    Some("Path is outside the project root"@)
                },
            }
        } else {
            match probe.parent {
                Ok(cp) => if path_starts_with(cp@, root@) {
                    None
                } else {
                    Some("Path is outside the project root"@)
                },
                Err(_) => None,
            }
        },
    }
}

fn is_parent_comp(c: &Vec<char>) -> (r: bool)
    ensures
        r == (c@ == seq!['.', '.']),
{
    let r = c.len() == 2 && c[0] == '.' && c[1] == '.';
    proof {
        if r {
            assert(c@ =~= seq!['.', '.']);
        }
    }
    r
}

fn is_cur_comp(c: &Vec<char>) -> (r: bool)
    ensures
        r == (c@ == cur_comp()),
{
    let r = c.len() == 1 && c[0] == '.';
    proof {
        if r {
            assert(c@ =~= cur_comp());
        }
    }
    r
}

/// Whether `p` names something under the directory it is read against.
pub fn is_lexically_inside(p: &str) -> (r: bool)
    ensures
        r == lexically_inside(p@),
{
    let pc = chars_of(p);
    if pc.len() > 0 && pc[0] == '/' {
        return false;
    }
    let cs = path_components(p);
    let ghost all = char_seqs(cs@);
    let mut depth: usize = 0;
    let mut i: usize = 0;
    assert(all.subrange(0, all.len() as int) =~= all);
    while i < cs.len()
        invariant
            i <= cs@.len(),
            depth <= i,
            all == char_seqs(cs@),
            all == components(p@),
            stays_below(all, 0) == stays_below(all.subrange(i as int, all.len() as int), depth as int),
        decreases cs@.len() - i,
    {
        let ghost rest = all.subrange(i as int, all.len() as int);
        assert(rest[0] == cs@[i as int]@);
        assert(rest.drop_first() =~= all.subrange(i + 1, all.len() as int));
        if is_parent_comp(&cs[i]) {
            if depth == 0 {
                return false;
            }
            depth = depth - 1;
        } else if !is_cur_comp(&cs[i]) {
            depth = depth + 1;
        }
        i = i + 1;
    }
    true
}

/// Where to write `file_path`, or the failed result when the write is
/// refused (see [`write_refusal`]).
pub fn write_access(probe: &PathProbe, project_root: &str, file_path: &str) -> (r: Result<String, ToolResult>)
    ensures
        match write_refusal(*probe, file_path@) {
            Some(msg) => r matches Err(e) && result_view(e) == failed(msg),
            None => r matches Ok(t) && t@ == path_join(project_root@, file_path@),
        },
{
    let root = match &probe.root {
        Err(e) => {
            let mut v = chars_of("Failed to canonicalize project root: ");
            push_str(&mut v, e.as_str());
            let s = string_from_chars(v.as_slice());
            return Err(ToolResult::err(s.as_str()));
        },
        Ok(r) => r,
    };
    if !is_lexically_inside(file_path) {
        return Err(ToolResult::err("Path is outside the project root"));
    }
    if probe.target_exists {
        match &probe.target {
            Err(e) => {
                let mut v = chars_of("Failed to canonicalize path: ");
                push_str(&mut v, e.as_str());
                let s = string_from_chars(v.as_slice());
                return Err(ToolResult::err(s.as_str()));
            },
            Ok(c) => {
                if !starts_with(c.as_str(), root.as_str()) {
                    return Err(ToolResult::err("Path is outside the project root"));
                }
            },
        }
    } else {
        match &probe.parent {
            Ok(cp) => {
                if !starts_with(cp.as_str(), root.as_str()) {
                    return Err(ToolResult::err("Path is outside the project root"));
                }
            },
            Err(_) => {},
        }
    }
    Ok(join(project_root, file_path))
}

/// The result of writing `content` to `file_path`; `created` says whether
/// the file did not exist before.
pub fn write_output(file_path: &str, content: &str, created: bool) -> (r: ToolResult)
    ensures
        result_view(r) == (ResultView {
            success: true,
            output: (if created { "Created"@ } else { "Wrote"@ }) + " "@ + file_path@ + " ("@ + decimal(
                byte_len(content@) as nat,
            ) + " bytes)"@,
            metadata: seq![
                ("path"@, JsonView::Str(file_path@)),
                ("byte_size"@, JsonView::Number(NumberView::Unsigned(byte_len(content@) as u64))),
                ("created"@, JsonView::Bool(created)),
            ],
        }),
{
    let size = content.len();
    let mut v = if created {
        chars_of("Created")
    } else {
        chars_of("Wrote")
    };
    push_str(&mut v, " ");
    push_str(&mut v, file_path);
    push_str(&mut v, " (");
    let d = u64_decimal(size as u64);
    push_all(&mut v, d.as_slice());
    push_str(&mut v, " bytes)");
    let text = string_from_chars(v.as_slice());
    let r = ToolResult::ok(text.as_str());
    let r = add_meta(r, "path", json_str(file_path));
    proof {
        reveal_strlit("path");
        reveal_strlit("byte_size");
        reveal_strlit("created");
    }
    assert(json_pairs(r.metadata).len() == 1 && json_pairs(r.metadata)[0].0 == "path"@);
    let r = add_meta(r, "byte_size", json_u64(size as u64));
    assert(json_pairs(r.metadata).len() == 2 && json_pairs(r.metadata)[1].0 == "byte_size"@);
    let r = add_meta(r, "created", JsonValue::Bool(created));
    assert(json_pairs(r.metadata) =~= seq![
        ("path"@, JsonView::Str(file_path@)),
        ("byte_size"@, JsonView::Number(NumberView::Unsigned(byte_len(content@) as u64))),
        ("created"@, JsonView::Bool(created)),
    ]);
    r
}

// ---------------------------------------------------------------------------
// file_edit
// ---------------------------------------------------------------------------

/// The schema of the file edit tool.
pub open spec fn file_edit_schema() -> SchemaView {
    SchemaView {
        name: "file_edit"@,
        description: "Make a targeted search-and-replace edit to an existing file."@,
        parameters: params_json(
            seq!["file_path"@, "old_string"@, "new_string"@],
            seq![
                ("file_path"@, prop_json("string"@, "Path to the file to edit"@)),
                ("old_string"@, prop_json("string"@, "Exact text to find"@)),
                ("new_string"@, prop_json("string"@, "Replacement text"@)),
                ("replace_all"@, prop_json("boolean"@, "Replace all occurrences (default: false)"@)),
            ],
        ),
    }
}

/// Targeted search-and-replace in a file.
#[derive(Debug)]
pub struct FileEditTool {
    schema: ToolSchema,
}

impl FileEditTool {
    pub closed spec fn spec_schema(&self) -> SchemaView {
        schema_view(self.schema)
    }

    pub fn new() -> (r: Self)
        ensures
            r.spec_schema() == file_edit_schema(),
    {
        let mut req: Vec<String> = Vec::new();
        req.push("file_path".to_owned());
        req.push("old_string".to_owned());
        req.push("new_string".to_owned());
        let mut props: Vec<(String, JsonValue)> = Vec::new();
        props.push(("file_path".to_owned(), prop_value("string", "Path to the file to edit")));
        props.push(("old_string".to_owned(), prop_value("string", "Exact text to find")));
        props.push(("new_string".to_owned(), prop_value("string", "Replacement text")));
        props.push(("replace_all".to_owned(), prop_value("boolean", "Replace all occurrences (default: false)")));
        let parameters = params_value(req, props);
        let schema = ToolSchema {
            name: "file_edit".to_owned(),
            description: "Make a targeted search-and-replace edit to an existing file.".to_owned(),
            parameters,
        };
        assert(schema_view(schema) =~= file_edit_schema()) by {
            assert(crate::text::string_views(req@) =~= seq!["file_path"@, "old_string"@, "new_string"@]);
            assert(crate::json::member_views(props@) =~= file_edit_schema().parameters->Object_0[2].1->Object_0);
        }
        FileEditTool { schema }
    }

    pub fn schema(&self) -> (r: &ToolSchema)
        ensures
            schema_view(*r) == self.spec_schema(),
    {
        &self.schema
    }
}

/// The arguments of an edit.
#[derive(Clone, Debug)]
pub struct EditRequest {
    pub file_path: String,
    pub old_string: String,
    pub new_string: String,
    pub replace_all: bool,
}

/// The arguments of an edit: path, text to find and its replacement
/// (required), and whether to replace every occurrence (default false).
pub fn edit_request(input: &JsonValue) -> (r: Result<EditRequest, ToolResult>)
    ensures
        match (
            spec_get_str(input@, "file_path"@),
            spec_get_str(input@, "old_string"@),
            spec_get_str(input@, "new_string"@),
        ) {
            (None, _, _) => r matches Err(e) && result_view(e) == failed("Missing required parameter: "@ + "file_path"@),
            (Some(_), None, _) => r matches Err(e) && result_view(e) == failed("Missing required parameter: "@ + "old_string"@),
            (Some(_), Some(_), None) => r matches Err(e) && result_view(e) == failed(
                "Missing required parameter: "@ + "new_string"@,
            ),
            (Some(fp), Some(o), Some(n)) => r matches Ok(q) && q.file_path@ == fp && q.old_string@ == o && q.new_string@ == n
                && q.replace_all == match spec_get_bool(input@, "replace_all"@) {
                Some(b) => b,
                None => false,
            },
        },
{
    let file_path = match input.get_str("file_path") {
        Some(p) => p,
        None => return Err(missing_parameter("file_path")),
    };
    let old_string = match input.get_str("old_string") {
        Some(p) => p,
        None => return Err(missing_parameter("old_string")),
    };
    let new_string = match input.get_str("new_string") {
        Some(p) => p,
        None => return Err(missing_parameter("new_string")),
    };
    let replace_all = match input.get_bool("replace_all") {
        Some(b) => b,
        None => false,
    };
    Ok(EditRequest {
        file_path: file_path.to_owned(),
        old_string: old_string.to_owned(),
        new_string: new_string.to_owned(),
        replace_all,
    })
}

/// The new content of a file with content `content` after the edit, with
/// the number of occurrences found; or the failed result when the text is
/// not found, or found more than once without `replace_all`.
pub fn edit_plan(file_path: &str, content: &str, old_string: &str, new_string: &str, replace_all_flag: bool) -> (r: Result<(String, usize), ToolResult>)
    requires
        content@.len() < usize::MAX,
    ensures
        ({
            let n = count_matches(content@, old_string@);
            if n == 0 {
                r matches Err(e) && result_view(e) == failed(
                    "old_string not found in "@ + file_path@ + ". Make sure the text matches exactly."@,
                )
            } else if n > 1 && !replace_all_flag {
                r matches Err(e) && result_view(e) == failed(
                    "old_string found "@ + decimal(n) + " times in "@ + file_path@
                        + ". Provide more context for a unique match, or set replace_all: true."@,
                )
            } else {
                r matches Ok(q) && q.1 == n && q.0@ == if replace_all_flag {
                    replace_all(content@, old_string@, new_string@)
                } else {
                    replace_first(content@, old_string@, new_string@)
                }
            }
        }),
{
    let cs = chars_of(content);
    let ps = chars_of(old_string);
    let rs = chars_of(new_string);
    let count = count_occurrences(cs.as_slice(), ps.as_slice());
    if count == 0 {
        let mut v = chars_of("old_string not found in ");
        push_str(&mut v, file_path);
        push_str(&mut v, ". Make sure the text matches exactly.");
        let s = string_from_chars(v.as_slice());
        return Err(ToolResult::err(s.as_str()));
    }
    if count > 1 && !replace_all_flag {
        let mut v = chars_of("old_string found ");
        let d = u64_decimal(count as u64);
        push_all(&mut v, d.as_slice());
        push_str(&mut v, " times in ");
        push_str(&mut v, file_path);
        push_str(&mut v, ". Provide more context for a unique match, or set replace_all: true.");
        let s = string_from_chars(v.as_slice());
        return Err(ToolResult::err(s.as_str()));
    }
    let out = if replace_all_flag {
        replace_occurrences(cs.as_slice(), ps.as_slice(), rs.as_slice())
    } else {
        replace_first_occurrence(cs.as_slice(), ps.as_slice(), rs.as_slice())
    };
    Ok((string_from_chars(out.as_slice()), count))
}

/// The result of an edit of `file_path` that made `count` replacements.
pub fn edit_output(file_path: &str, count: usize) -> (r: ToolResult)
    ensures
        result_view(r) == (ResultView {
            success: true,
            output: "Edited "@ + file_path@ + ": "@ + decimal(count as nat) + " replacement(s) made"@,
            metadata: seq![
                ("path"@, JsonView::Str(file_path@)),
                ("replacements"@, JsonView::Number(NumberView::Unsigned(count as u64))),
            ],
        }),
{
    let mut v = chars_of("Edited ");
    push_str(&mut v, file_path);
    push_str(&mut v, ": ");
    let d = u64_decimal(count as u64);
    push_all(&mut v, d.as_slice());
    push_str(&mut v, " replacement(s) made");
    let text = string_from_chars(v.as_slice());
    let r = ToolResult::ok(text.as_str());
    let r = add_meta(r, "path", json_str(file_path));
    proof {
        reveal_strlit("path");
        reveal_strlit("replacements");
    }
    assert(json_pairs(r.metadata).len() == 1 && json_pairs(r.metadata)[0].0 == "path"@);
    let r = add_meta(r, "replacements", json_u64(count as u64));
    assert(json_pairs(r.metadata) =~= seq![
        ("path"@, JsonView::Str(file_path@)),
        ("replacements"@, JsonView::Number(NumberView::Unsigned(count as u64))),
    ]);
    r
}

} // verus!
