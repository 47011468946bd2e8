//! The search tools: glob (find files by pattern) and grep (search file
//! contents by regular expression). Walking the directory tree and reading
//! files happen at the edge of the program; what is searched, what is kept
//! and how the result reads is decided here.
use vstd::prelude::*;

use crate::file_tools::{add_meta, failed, u64_or};
use crate::json::{json_u64, spec_get_str, spec_get_u64, JsonValue, JsonView, NumberView};
use crate::paths::{join, path_join, path_strip_prefix, strip_prefix};
use crate::pattern::{regex_compiles, regex_finds};
use crate::loader::{env_value, env_view};
use crate::string_map::{json_pairs, StringMap};
use crate::text::{
    char_seqs, chars_of, decimal, join_chars, join_on, lines_of, push_all, push_str, str_lines, string_from_chars,
    string_views, u64_decimal,
};
use crate::tool_schema::{failure, missing_parameter, params_json, params_value, prop_json, prop_value};
use crate::types::{result_view, schema_view, ResultView, SchemaView, ToolResult, ToolSchema};

verus! {

#[verifier::external_type_specification]
#[verifier::external_body]
pub struct ExRegex(regex::Regex);

/// The text of the error `regex::Regex::new` reports for `pattern`.
pub uninterp spec fn regex_error(pattern: Seq<char>) -> Seq<char>;

/// `Regex::replace_all` of the expression compiled from `pattern` on `text`,
/// each match replaced by the value in `env` of its first capture group.
pub uninterp spec fn replace_captures(pattern: Seq<char>, text: Seq<char>, env: Map<Seq<char>, Seq<char>>) -> Seq<char>;

/// Whether `glob::Pattern::new` accepts `pattern`.
pub uninterp spec fn glob_compiles(pattern: Seq<char>) -> bool;

/// `glob::Pattern::matches` of the pattern compiled from `pattern`, on `name`.
pub uninterp spec fn glob_accepts(pattern: Seq<char>, name: Seq<char>) -> bool;

/// Compiles `pattern` with `glob::Pattern::new` and, when that succeeds, runs
/// `Pattern::matches` on `name`. The contract claims only that `None` comes
/// exactly when compilation fails and that the answer is a function of the
/// pattern and the name.
#[verifier::external_body]
fn glob_match(pattern: &str, name: &str) -> (r: Option<bool>)
    ensures
        r is Some <==> glob_compiles(pattern@),
        r matches Some(b) ==> b == glob_accepts(pattern@, name@),
{
    match glob::Pattern::new(pattern) {
        Ok(p) => Some(p.matches(name)),
        Err(_) => None,
    }
}

/// A regular expression compiled once from its pattern, for matching many lines.
pub struct LinePattern {
    pattern: String,
    re: regex::Regex,
}

impl LinePattern {
    /// The pattern the expression was compiled from.
    pub closed spec fn source(&self) -> Seq<char> {
        self.pattern@
    }

    /// `regex::Regex::new`: the compiled expression, or the text of the
    /// error. The contract claims that compilation succeeds exactly when
    /// `regex_compiles` holds of the pattern, that the error text is a
    /// function of the pattern, and that the result remembers its pattern.
    #[verifier::external_body]
    pub(crate) fn compile(pattern: &str) -> (r: Result<LinePattern, String>)
        ensures
            r is Ok <==> regex_compiles(pattern@),
            r matches Ok(p) ==> p.source() == pattern@,
            r matches Err(e) ==> e@ == regex_error(pattern@),
    {
        match regex::Regex::new(pattern) {
            Ok(re) => Ok(LinePattern { pattern: pattern.to_owned(), re }),
            Err(e) => Err(e.to_string()),
        }
    }

    /// `Regex::is_match`: whether some part of `text` matches. The contract
    /// claims the answer is `regex_finds` of the pattern the expression was
    /// compiled from.
    #[verifier::external_body]
    pub(crate) fn is_match(&self, text: &str) -> (r: bool)
        ensures
            r == regex_finds(self.source(), text@),
    {
        self.re.is_match(text)
    }

    /// `Regex::replace_all` with a replacer that looks the first capture
    /// group up in `env` (a name that is not there gives the empty string).
    /// The contract claims the result is `replace_captures` of the pattern,
    /// the text and the values of `env`, a function of those alone.
    #[verifier::external_body]
    pub(crate) fn replace_refs(&self, text: &str, env: &StringMap<String>) -> (r: String)
        ensures
            r@ == replace_captures(self.source(), text@, env_view(env@)),
    {
        self.re.replace_all(text, |caps: &regex::Captures<'_>| {
            env_value(env, caps.get(1).map_or("", |m| m.as_str()))
        }).to_string()
    }
}

/// `p` relative to `root` when it lies under it, else `p` itself.
pub open spec fn relative_or_self(p: Seq<char>, root: Seq<char>) -> Seq<char> {
    match path_strip_prefix(p, root) {
        Some(r) => r,
        None => p,
    }
}

// ---------------------------------------------------------------------------
// glob
// ---------------------------------------------------------------------------

/// The schema of the glob tool.
pub open spec fn glob_schema() -> SchemaView {
    SchemaView {
        name: "glob"@,
        description: "Find files matching a glob pattern."@,
        parameters: params_json(
            seq!["pattern"@],
            seq![
                ("pattern"@, prop_json("string"@, "Glob pattern (e.g., \"src/**/*.rs\")"@)),
                ("path"@, prop_json("string"@, "Directory to search in (default: project root)"@)),
            ],
        ),
    }
}

/// Finds files by glob pattern.
#[derive(Debug)]
pub struct GlobTool {
    schema: ToolSchema,
}

impl GlobTool {
    pub closed spec fn spec_schema(&self) -> SchemaView {
        schema_view(self.schema)
    }

    pub fn new() -> (r: Self)
        ensures
            r.spec_schema() == glob_schema(),
    {
        let mut req: Vec<String> = Vec::new();
        req.push("pattern".to_owned());
        let mut props: Vec<(String, JsonValue)> = Vec::new();
        props.push(("pattern".to_owned(), prop_value("string", "Glob pattern (e.g., \"src/**/*.rs\")")));
        props.push(("path".to_owned(), prop_value("string", "Directory to search in (default: project root)")));
        let parameters = params_value(req, props);
        let schema = ToolSchema {
            name: "glob".to_owned(),
            description: "Find files matching a glob pattern.".to_owned(),
            parameters,
        };
        assert(schema_view(schema) =~= glob_schema()) by {
            assert(string_views(req@) =~= seq!["pattern"@]);
            assert(crate::json::member_views(props@) =~= glob_schema().parameters->Object_0[2].1->Object_0);
        }
        GlobTool { schema }
    }

    pub fn schema(&self) -> (r: &ToolSchema)
        ensures
            schema_view(*r) == self.spec_schema(),
    {
        &self.schema
    }
}

/// The arguments of a glob search: the pattern (required), and the full
/// pattern to expand: the pattern under `path` in the project, or under the
/// project root.
pub fn glob_request(input: &JsonValue, project_root: &str) -> (r: Result<(String, String), ToolResult>)
    ensures
        match spec_get_str(input@, "pattern"@) {
            None => r matches Err(e) && result_view(e) == failed("Missing required parameter: "@ + "pattern"@),
            Some(p) => r matches Ok(q) && q.0@ == p && q.1@ == path_join(
                match spec_get_str(input@, "path"@) {
                    Some(d) => path_join(project_root@, d),
                    None => project_root@,
                },
                p,
            ),
        },
{
    let pattern = match input.get_str("pattern") {
        Some(p) => p,
        None => return Err(missing_parameter("pattern")),
    };
    let base = match input.get_str("path") {
        Some(d) => join(project_root, d),
        None => project_root.to_owned(),
    };
    let full = join(base.as_str(), pattern);
    Ok((pattern.to_owned(), full))
}

/// The paths relative to the project root, of those found that lie under it.
pub open spec fn relative_found(found: Seq<Seq<char>>, root: Seq<char>) -> Seq<Seq<char>>
    decreases found.len(),
{
    if found.len() == 0 {
        Seq::empty()
    } else {
        relative_found(found.drop_last(), root) + match path_strip_prefix(found.last(), root) {
            Some(r) => seq![r],
            None => Seq::empty(),
        }
    }
}

/// The paths relative to `project_root`, in order, of those in `found` that
/// lie under it.
pub fn relative_matches(found: &Vec<String>, project_root: &str) -> (r: Vec<String>)
    ensures
        string_views(r@) == relative_found(string_views(found@), project_root@),
{
    let ghost fs = string_views(found@);
    let mut out: Vec<String> = Vec::new();
    let mut i: usize = 0;
    assert(fs.subrange(0, 0) =~= Seq::<Seq<char>>::empty());
    while i < found.len()
        invariant
            i <= found@.len(),
            fs == string_views(found@),
            string_views(out@) == relative_found(fs.subrange(0, i as int), project_root@),
        decreases found@.len() - i,
    {
        assert(fs.subrange(0, i + 1).drop_last() =~= fs.subrange(0, i as int));
        assert(fs.subrange(0, i + 1).last() == found@[i as int]@);
        match strip_prefix(found[i].as_str(), project_root) {
            Some(rel) => {
                let ghost before = string_views(out@);
                let ghost rv = rel@;
                out.push(rel);
                assert(string_views(out@) =~= before.push(rv));
            },
            None => {},
        }
        i = i + 1;
    }
    assert(fs.subrange(0, fs.len() as int) =~= fs);
    out
}

/// How many matches a glob result lists.
pub open spec fn glob_cap() -> nat {
    200
}

/// The result of a glob search for `pattern` that matched `matches`.
pub fn glob_output(pattern: &str, matches: &Vec<String>) -> (r: ToolResult)
    ensures
        ({
            let ms = string_views(matches@);
            let shown = if ms.len() > glob_cap() {
                ms.subrange(0, glob_cap() as int)
            } else {
                ms
            };
            result_view(r) == (ResultView {
                success: true,
                output: if ms.len() == 0 {
                    "No files matching pattern: "@ + pattern@
                } else {
                    join_on(shown, "\n"@)
                },
                metadata: seq![
                    ("match_count"@, JsonView::Number(NumberView::Unsigned(ms.len() as u64))),
                    ("truncated"@, JsonView::Bool(ms.len() > glob_cap())),
                ],
            })
        }),
{
    let total = matches.len();
    let truncated = total > 200;
    let text = if total == 0 {
        let mut v = chars_of("No files matching pattern: ");
        push_str(&mut v, pattern);
        string_from_chars(v.as_slice())
    } else {
        let n = if truncated {
            200
        } else {
            total
        };
        let mut pieces: Vec<Vec<char>> = Vec::new();
        let mut i: usize = 0;
        while i < n
            invariant
                i <= n <= matches@.len(),
                char_seqs(pieces@) == string_views(matches@).subrange(0, i as int),
            decreases n - i,
        {
            let ghost before = char_seqs(pieces@);
            let c = chars_of(matches[i].as_str());
            let ghost cv = c@;
            pieces.push(c);
            assert(char_seqs(pieces@) =~= before.push(cv));
            assert(string_views(matches@).subrange(0, i + 1) =~= string_views(matches@).subrange(0, i as int).push(
                matches@[i as int]@,
            ));
            i = i + 1;
        }
        let nl = chars_of("\n");
        let joined = join_chars(pieces.as_slice(), 0, n, nl.as_slice());
        assert(char_seqs(pieces@).subrange(0, n as int) =~= char_seqs(pieces@));
        proof {
            if !truncated {
                assert(string_views(matches@).subrange(0, n as int) =~= string_views(matches@));
            }
        }
        string_from_chars(joined.as_slice())
    };
    let r = ToolResult::ok(text.as_str());
    let r = add_meta(r, "match_count", json_u64(total as u64));
    proof {
        reveal_strlit("match_count");
        reveal_strlit("truncated");
    }
    assert(json_pairs(r.metadata).len() == 1 && json_pairs(r.metadata)[0].0 == "match_count"@);
    assert("match_count"@.len() != "truncated"@.len());
    let r = add_meta(r, "truncated", JsonValue::Bool(truncated));
    assert(json_pairs(r.metadata) =~= seq![
        ("match_count"@, JsonView::Number(NumberView::Unsigned(total as u64))),
        ("truncated"@, JsonView::Bool(truncated)),
    ]);
    r
}

/// The failed result for a pattern the glob crate refuses; `detail` is its
/// error text.
pub fn glob_invalid(detail: &str) -> (r: ToolResult)
    ensures
        result_view(r) == failed("Invalid glob pattern"@ + ": "@ + detail@),
{
    failure("Invalid glob pattern", detail)
}

// ---------------------------------------------------------------------------
// grep
// ---------------------------------------------------------------------------

/// The schema of the grep tool.
pub open spec fn grep_schema() -> SchemaView {
    SchemaView {
        name: "grep"@,
        description: "Search file contents by regex pattern."@,
        parameters: params_json(
            seq!["pattern"@],
            seq![
                ("pattern"@, prop_json("string"@, "Regex pattern to search for"@)),
                ("path"@, prop_json("string"@, "File or directory to search (default: project root)"@)),
                ("glob"@, prop_json("string"@, "Filter files by glob pattern"@)),
                ("max_results"@, prop_json("integer"@, "Maximum matches to return (default: 100)"@)),
            ],
        ),
    }
}

/// Searches file contents by regular expression.
#[derive(Debug)]
pub struct GrepTool {
    schema: ToolSchema,
}

impl GrepTool {
    pub closed spec fn spec_schema(&self) -> SchemaView {
        schema_view(self.schema)
    }

    pub fn new() -> (r: Self)
        ensures
            r.spec_schema() == grep_schema(),
    {
        let mut req: Vec<String> = Vec::new();
        req.push("pattern".to_owned());
        let mut props: Vec<(String, JsonValue)> = Vec::new();
        props.push(("pattern".to_owned(), prop_value("string", "Regex pattern to search for")));
        props.push(("path".to_owned(), prop_value("string", "File or directory to search (default: project root)")));
        props.push(("glob".to_owned(), prop_value("string", "Filter files by glob pattern")));
        props.push(("max_results".to_owned(), prop_value("integer", "Maximum matches to return (default: 100)")));
        let parameters = params_value(req, props);
        let schema = ToolSchema {
            name: "grep".to_owned(),
            description: "Search file contents by regex pattern.".to_owned(),
            parameters,
        };
        assert(schema_view(schema) =~= grep_schema()) by {
            assert(string_views(req@) =~= seq!["pattern"@]);
            assert(crate::json::member_views(props@) =~= grep_schema().parameters->Object_0[2].1->Object_0);
        }
        GrepTool { schema }
    }

    pub fn schema(&self) -> (r: &ToolSchema)
        ensures
            schema_view(*r) == self.spec_schema(),
    {
        &self.schema
    }
}

/// The arguments of a grep search.
#[derive(Clone, Debug)]
pub struct GrepRequest {
    pub pattern: String,
    pub search_path: String,
    pub max_results: usize,
    pub glob: Option<String>,
}

/// The arguments of a grep search: the pattern (required), where to search
/// (`path` in the project, else the project root), the most matches to keep
/// (default 100) and a glob that file names must match.
pub fn grep_request(input: &JsonValue, project_root: &str) -> (r: Result<GrepRequest, ToolResult>)
    ensures
        match spec_get_str(input@, "pattern"@) {
            None => r matches Err(e) && result_view(e) == failed("Missing required parameter: "@ + "pattern"@),
            Some(p) => r matches Ok(q) && q.pattern@ == p && q.search_path@ == match spec_get_str(input@, "path"@) {
                Some(d) => path_join(project_root@, d),
                None => project_root@,
            } && q.max_results == u64_or(spec_get_u64(input@, "max_results"@), 100) as usize && match spec_get_str(
                input@,
                "glob"@,
            ) {
                Some(g) => q.glob matches Some(x) && x@ == g,
                None => q.glob is None,
            },
        },
{
    let pattern = match input.get_str("pattern") {
        Some(p) => p,
        None => return Err(missing_parameter("pattern")),
    };
    let search_path = match input.get_str("path") {
        Some(d) => join(project_root, d),
        None => project_root.to_owned(),
    };
    let max_results = match input.get_u64("max_results") {
        Some(n) => n as usize,
        None => 100,
    };
    let glob = match input.get_str("glob") {
        Some(g) => Some(g.to_owned()),
        None => None,
    };
    Ok(GrepRequest { pattern: pattern.to_owned(), search_path, max_results, glob })
}

/// Whether a file named `file_name` is searched: with a glob filter that the
/// glob crate accepts, only when the name matches it.
pub open spec fn admitted(glob: Option<Seq<char>>, file_name: Seq<char>) -> bool {
    match glob {
        Some(g) => !glob_compiles(g) || glob_accepts(g, file_name),
        None => true,
    }
}

/// Whether a file named `file_name` is searched.
pub fn admits(glob: Option<&str>, file_name: &str) -> (r: bool)
    ensures
        r == admitted(
            match glob {
                Some(g) => Some(g@),
                None => None,
            },
            file_name@,
        ),
{
    match glob {
        Some(g) => match glob_match(g, file_name) {
            Some(b) => b,
            None => true,
        },
        None => true,
    }
}

/// Whether a file's bytes look binary: more than 512 of them, with a zero
/// byte among the first 512.
pub open spec fn looks_binary(bytes: Seq<u8>) -> bool {
    bytes.len() > 512 && exists|i: int| 0 <= i < 512 && bytes[i] == 0
}

/// Whether a file's bytes look binary.
pub fn is_binary(bytes: &[u8]) -> (r: bool)
    ensures
        r == looks_binary(bytes@),
{
    if bytes.len() <= 512 {
        return false;
    }
    let mut i: usize = 0;
    while i < 512
        invariant
            i <= 512 < bytes@.len(),
            forall|j: int| 0 <= j < i ==> bytes@[j] != 0,
        decreases 512 - i,
    {
        if bytes[i] == 0 {
            return true;
        }
        i = i + 1;
    }
    false
}

/// The line reported for a match: path, line number and the line.
pub open spec fn match_line(path: Seq<char>, number: nat, line: Seq<char>) -> Seq<char> {
    path + ":"@ + decimal(number) + ": "@ + line
}

/// The matches after scanning `lines` from index `i`, starting with `acc`,
/// and whether a match beyond the limit was met: each matching line is
/// added while fewer than `max` are held; the scan stops at the first
/// matching line that finds `max` already held.
pub open spec fn scan(
    pattern: Seq<char>,
    path: Seq<char>,
    lines: Seq<Seq<char>>,
    i: int,
    max: nat,
    acc: Seq<Seq<char>>,
) -> (Seq<Seq<char>>, bool)
    decreases lines.len() - i,
{
    if i < 0 || i >= lines.len() {
        (acc, false)
    } else if regex_finds(pattern, lines[i]) {
        if acc.len() >= max {
            (acc, true)
        } else {
            scan(pattern, path, lines, i + 1, max, acc.push(match_line(path, (i + 1) as nat, lines[i])))
        }
    } else {
        scan(pattern, path, lines, i + 1, max, acc)
    }
}

/// A grep search in progress: the compiled pattern, the limit, the matches
/// so far and the number of files searched.
pub struct GrepSearch {
    pattern: LinePattern,
    max_results: usize,
    matches: Vec<String>,
    beyond_limit: bool,
    files_searched: i32,
}

impl GrepSearch {
    pub closed spec fn source(&self) -> Seq<char> {
        self.pattern.source()
    }

    pub closed spec fn max(&self) -> usize {
        self.max_results
    }

    pub closed spec fn found(&self) -> Seq<Seq<char>> {
        string_views(self.matches@)
    }

    pub closed spec fn files(&self) -> i32 {
        self.files_searched
    }

    /// Whether a matching line beyond the limit was met.
    pub closed spec fn more(&self) -> bool {
        self.beyond_limit
    }

    /// A search for `pattern` keeping at most `max_results` matches; the
    /// failed result when the regex crate refuses the pattern.
    pub fn start(pattern: &str, max_results: usize) -> (r: Result<GrepSearch, ToolResult>)
        ensures
            r is Ok <==> regex_compiles(pattern@),
            r matches Ok(g) ==> g.source() == pattern@ && g.max() == max_results && g.found().len() == 0 && g.files() == 0
                && !g.more(),
            r matches Err(e) ==> result_view(e) == failed("Invalid regex"@ + ": "@ + regex_error(pattern@)),
    {
        match LinePattern::compile(pattern) {
            Ok(p) => {
                let g = GrepSearch { pattern: p, max_results, matches: Vec::new(), beyond_limit: false, files_searched: 0 };
                assert(g.found() =~= Seq::<Seq<char>>::empty());
                Ok(g)
            },
            Err(e) => Err(failure("Invalid regex", e.as_str())),
        }
    }

    /// Count one more file as searched (the count stops at `i32::MAX`).
    pub fn count_file(&mut self)
        ensures
            final(self).files() == if old(self).files() < i32::MAX {
                old(self).files() + 1
            } else {
                i32::MAX as int
            },
            final(self).source() == old(self).source(),
            final(self).max() == old(self).max(),
            final(self).found() == old(self).found(),
            final(self).more() == old(self).more(),
    {
        if self.files_searched < i32::MAX {
            self.files_searched = self.files_searched + 1;
        }
    }

    /// Whether a matching line beyond the limit was met, so that searching
    /// further files can change nothing.
    pub fn is_full(&self) -> (r: bool)
        ensures
            r == self.more(),
    {
        self.beyond_limit
    }

    /// Search the lines of a file shown as `path`, whose content is `content`.
    pub fn search_file(&mut self, path: &str, content: &str)
        ensures
            final(self).found() == scan(old(self).source(), path@, str_lines(content@), 0, old(self).max() as nat, old(self).found()).0,
            final(self).more() == (old(self).more() || scan(old(self).source(), path@, str_lines(content@), 0, old(self).max() as nat, old(self).found()).1),
            final(self).source() == old(self).source(),
            final(self).max() == old(self).max(),
            final(self).files() == old(self).files(),
    {
        let cs = chars_of(content);
        let lines = lines_of(cs.as_slice());
        let ghost ls = str_lines(content@);
        let ghost goal = scan(self.source(), path@, ls, 0, self.max_results as nat, self.found());
        let mut i: usize = 0;
        while i < lines.len()
            invariant
                i <= lines@.len(),
                char_seqs(lines@) == ls,
                ls == str_lines(content@),
                self.source() == old(self).source(),
                self.max_results == old(self).max_results,
                self.files_searched == old(self).files_searched,
                self.beyond_limit == old(self).beyond_limit,
                goal == scan(old(self).source(), path@, ls, 0, old(self).max_results as nat, old(self).found()),
                scan(self.source(), path@, ls, i as int, self.max_results as nat, self.found()) == goal,
            decreases lines@.len() - i,
        {
            let line = string_from_chars(lines[i].as_slice());
            assert(line@ == ls[i as int]);
            if self.pattern.is_match(line.as_str()) {
                if self.matches.len() >= self.max_results {
                    self.beyond_limit = true;
                    return;
                }
                let mut v = chars_of(path);
                push_str(&mut v, ":");
                let d = u64_decimal((i + 1) as u64);
                push_all(&mut v, d.as_slice());
                push_str(&mut v, ": ");
                push_all(&mut v, lines[i].as_slice());
                let ghost before = self.found();
                self.matches.push(string_from_chars(v.as_slice()));
                assert(self.found() =~= before.push(match_line(path@, (i + 1) as nat, ls[i as int])));
                assert(regex_finds(self.source(), ls[i as int]));
            }
            i = i + 1;
        }
    }

    /// One file met by the walk: the file at `path`, shown as `shown`, whose
    /// bytes were `bytes` and whose text was `content` (`None` where reading
    /// failed). A file that `glob` does not admit, or whose bytes look
    /// binary, is skipped; any other file is counted and, when its text was
    /// read, searched. The answer says whether the walk can stop: a matching
    /// line beyond the limit was met.
    pub fn visit(
        &mut self,
        glob: Option<&str>,
        path: &str,
        shown: &str,
        bytes: Option<&[u8]>,
        content: Option<&str>,
    ) -> (stop: bool)
        ensures
            final(self).source() == old(self).source(),
            final(self).max() == old(self).max(),
            ({
                let skip = !admitted(
                    match glob {
                        Some(g) => Some(g@),
                        None => None,
                    },
                    path@,
                ) || (bytes matches Some(b) && looks_binary(b@));
                if skip {
                    &&& final(self).found() == old(self).found()
                    &&& final(self).files() == old(self).files()
                    &&& final(self).more() == old(self).more()
                    &&& !stop
                } else {
                    &&& final(self).files() == if old(self).files() < i32::MAX {
                        old(self).files() + 1
                    } else {
                        i32::MAX as int
                    }
                    &&& match content {
                        Some(c) => {
                            let sc = scan(old(self).source(), shown@, str_lines(c@), 0, old(self).max() as nat, old(self).found());
                            &&& final(self).found() == sc.0
                            &&& final(self).more() == (old(self).more() || sc.1)
                        },
                        None => {
                            &&& final(self).found() == old(self).found()
                            &&& final(self).more() == old(self).more()
                        },
                    }
                    &&& stop == final(self).more()
                }
            }),
    {
        if !admits(glob, path) {
            return false;
        }
        match bytes {
            Some(b) => {
                if is_binary(b) {
                    return false;
                }
            },
            None => {},
        }
        self.count_file();
        match content {
            Some(c) => self.search_file(shown, c),
            None => {},
        }
        self.beyond_limit
    }

    /// The result of the finished search for `pattern`.
    pub fn finish(&self, pattern: &str) -> (r: ToolResult)
        ensures
            result_view(r) == (ResultView {
                success: true,
                output: if self.found().len() == 0 {
                    "No matches for pattern: "@ + pattern@
                } else {
                    join_on(self.found(), "\n"@)
                },
                metadata: seq![
                    ("match_count"@, JsonView::Number(NumberView::Unsigned(self.found().len() as u64))),
                    ("files_searched"@, JsonView::Number(NumberView::Unsigned(self.files() as u64))),
                    ("truncated"@, JsonView::Bool(self.more())),
                ],
            }),
    {
        let total = self.matches.len();
        let text = if total == 0 {
            let mut v = chars_of("No matches for pattern: ");
            push_str(&mut v, pattern);
            string_from_chars(v.as_slice())
        } else {
            let mut pieces: Vec<Vec<char>> = Vec::new();
            let mut i: usize = 0;
            while i < total
                invariant
                    i <= total == self.matches@.len(),
                    char_seqs(pieces@) == string_views(self.matches@).subrange(0, i as int),
                decreases total - i,
            {
                let ghost before = char_seqs(pieces@);
                let c = chars_of(self.matches[i].as_str());
                let ghost cv = c@;
                pieces.push(c);
                assert(char_seqs(pieces@) =~= before.push(cv));
                assert(string_views(self.matches@).subrange(0, i + 1) =~= string_views(self.matches@).subrange(0, i as int).push(
                    self.matches@[i as int]@,
                ));
                i = i + 1;
            }
            let nl = chars_of("\n");
            let joined = join_chars(pieces.as_slice(), 0, total, nl.as_slice());
            assert(char_seqs(pieces@).subrange(0, total as int) =~= char_seqs(pieces@));
            assert(string_views(self.matches@).subrange(0, total as int) =~= string_views(self.matches@));
            string_from_chars(joined.as_slice())
        };
        let r = ToolResult::ok(text.as_str());
        let r = add_meta(r, "match_count", json_u64(total as u64));
        proof {
            reveal_strlit("match_count");
            reveal_strlit("files_searched");
            reveal_strlit("truncated");
        }
        assert(json_pairs(r.metadata).len() == 1 && json_pairs(r.metadata)[0].0 == "match_count"@);
        assert("match_count"@.len() != "files_searched"@.len());
        let r = add_meta(r, "files_searched", json_u64(self.files_searched as u64));
        assert(json_pairs(r.metadata).len() == 2 && json_pairs(r.metadata)[1].0 == "files_searched"@);
        assert("match_count"@.len() != "truncated"@.len());
        assert("files_searched"@.len() != "truncated"@.len());
        let r = add_meta(r, "truncated", JsonValue::Bool(self.beyond_limit));
        assert(json_pairs(r.metadata) =~= seq![
            ("match_count"@, JsonView::Number(NumberView::Unsigned(total as u64))),
            ("files_searched"@, JsonView::Number(NumberView::Unsigned(self.files_searched as u64))),
            ("truncated"@, JsonView::Bool(self.beyond_limit)),
        ]);
        r
    }
}

/// The path a match is reported under: relative to the project root when
/// the file lies under it.
pub fn display_path(path: &str, project_root: &str) -> (r: String)
    ensures
        r@ == relative_or_self(path@, project_root@),
{
    match strip_prefix(path, project_root) {
        Some(rel) => rel,
        None => path.to_owned(),
    }
}

} // verus!
