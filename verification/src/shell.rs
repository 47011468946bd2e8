//! The shell tool: what command to run, where and for how long, and how its
//! output becomes the tool's result. The command runs at the edge of the
//! program.
use vstd::prelude::*;
use vstd::utf8::{decode_utf8, encode_utf8, is_char_boundary};

use crate::context::byte_len;
use crate::file_tools::{failed, u64_or};
use crate::json::{spec_get_str, spec_get_u64, JsonNumber, JsonValue, JsonView, NumberView};
use crate::paths::{join, path_join};
use crate::string_map::json_pairs;
use crate::text::{chars_of, decimal, i64_decimal, push_all, push_str, signed_decimal, string_from_chars, u128_decimal, u64_decimal};
use crate::tool_schema::{missing_parameter, params_json, params_value, prop_json, prop_value};
use crate::types::{result_view, schema_view, ResultView, SchemaView, ToolResult, ToolSchema};

verus! {

/// The schema of the shell tool.
pub open spec fn shell_schema() -> SchemaView {
    SchemaView {
        name: "shell_execute"@,
        description: "Run a shell command and return stdout, stderr, and exit code."@,
        parameters: params_json(
            seq!["command"@],
            seq![
                ("command"@, prop_json("string"@, "The shell command to run"@)),
                ("cwd"@, prop_json("string"@, "Working directory (default: project root)"@)),
                ("timeout"@, prop_json("integer"@, "Timeout in milliseconds (default: 30000)"@)),
            ],
        ),
    }
}

/// Runs shell commands, with a default timeout and a limit on the output kept.
#[derive(Debug)]
pub struct ShellExecuteTool {
    schema: ToolSchema,
    output_limit: usize,
    default_timeout_ms: u64,
}

/// The arguments of a command run.
#[derive(Clone, Debug)]
pub struct ShellRequest {
    pub command: String,
    pub cwd: String,
    pub timeout_ms: u64,
}

/// The JSON number for an exit code.
pub open spec fn int_json(n: int) -> JsonView {
    if n >= 0 {
        JsonView::Number(NumberView::Unsigned(n as u64))
    } else {
        JsonView::Number(NumberView::Signed(n as i64))
    }
}

/// The greatest character boundary of `bytes` at or below `n`.
pub open spec fn boundary_at_most(bytes: Seq<u8>, n: nat) -> nat
    decreases n,
{
    if n == 0 || is_char_boundary(bytes, n as int) {
        n
    } else {
        boundary_at_most(bytes, (n - 1) as nat)
    }
}

/// `s` cut to at most `n` bytes of whole characters: the longest prefix of
/// its characters that fits; `s` itself when it is no longer than that.
pub open spec fn truncate_bytes(s: Seq<char>, n: nat) -> Seq<char> {
    if n >= byte_len(s) {
        s
    } else {
        decode_utf8(encode_utf8(s).subrange(0, boundary_at_most(encode_utf8(s), n) as int))
    }
}

/// Whether the two outputs together pass `limit` bytes.
pub open spec fn over_limit(stdout: Seq<char>, stderr: Seq<char>, limit: usize) -> bool {
    byte_len(stdout) + byte_len(stderr) > limit
}

/// The notice put after output that was cut: how many of its bytes are shown.
pub open spec fn truncation_notice(shown: nat, total: nat) -> Seq<char> {
    "\n[Output truncated: showing first "@ + decimal(shown) + " of "@ + decimal(total)
        + " bytes. Use file_read with offset/limit to see specific sections.]\n"@
}

/// The text of a command's result.
pub open spec fn shell_text(exit_code: int, stdout: Seq<char>, stderr: Seq<char>) -> Seq<char> {
    "Exit code: "@ + signed_decimal(exit_code) + "\n"@ + (if stdout.len() > 0 {
        "\n--- stdout ---\n"@ + stdout + "\n"@
    } else {
        Seq::empty()
    }) + (if stderr.len() > 0 {
        "\n--- stderr ---\n"@ + stderr + "\n"@
    } else {
        Seq::empty()
    })
}

/// `s` cut to at most `n` bytes of whole characters.
fn truncate_str(s: &str, n: usize) -> (r: String)
    ensures
        r@ == truncate_bytes(s@, n as nat),
{
    if n >= s.len() {
        s.to_owned()
    } else {
        let mut k: usize = n;
        while k > 0 && !s.is_char_boundary(k)
            invariant
                k <= n,
                boundary_at_most(encode_utf8(s@), n as nat) == boundary_at_most(encode_utf8(s@), k as nat),
            decreases k,
        {
            k = k - 1;
        }
        proof {
            broadcast use vstd::utf8::encode_utf8_valid_utf8;
        }
        let (a, _) = s.split_at(k);
        proof {
            broadcast use vstd::utf8::encode_utf8_decode_utf8;
            assert(decode_utf8(encode_utf8(a@)) == a@);
        }
        a.to_owned()
    }
}

impl ShellExecuteTool {
    pub closed spec fn spec_schema(&self) -> SchemaView {
        schema_view(self.schema)
    }

    pub closed spec fn spec_output_limit(&self) -> usize {
        self.output_limit
    }

    pub closed spec fn spec_default_timeout(&self) -> u64 {
        self.default_timeout_ms
    }

    /// A shell tool with a 30-second default timeout and a 100 000-byte
    /// output limit.
    pub fn new() -> (r: Self)
        ensures
            r.spec_schema() == shell_schema(),
            r.spec_default_timeout() == 30_000,
            r.spec_output_limit() == 100_000,
    {
        Self::with_limits(30_000, 100_000)
    }

    /// A shell tool with the given default timeout and output limit.
    pub fn with_limits(default_timeout_ms: u64, output_limit: usize) -> (r: Self)
        ensures
            r.spec_schema() == shell_schema(),
            r.spec_default_timeout() == default_timeout_ms,
            r.spec_output_limit() == output_limit,
    {
        let mut req: Vec<String> = Vec::new();
        req.push("command".to_owned());
        let mut props: Vec<(String, JsonValue)> = Vec::new();
        props.push(("command".to_owned(), prop_value("string", "The shell command to run")));
        props.push(("cwd".to_owned(), prop_value("string", "Working directory (default: project root)")));
        props.push(("timeout".to_owned(), prop_value("integer", "Timeout in milliseconds (default: 30000)")));
        let parameters = params_value(req, props);
        let schema = ToolSchema {
            name: "shell_execute".to_owned(),
            description: "Run a shell command and return stdout, stderr, and exit code.".to_owned(),
            parameters,
        };
        assert(schema_view(schema) =~= shell_schema()) by {
            assert(crate::text::string_views(req@) =~= seq!["command"@]);
            assert(crate::json::member_views(props@) =~= shell_schema().parameters->Object_0[2].1->Object_0);
        }
        ShellExecuteTool { schema, output_limit, default_timeout_ms }
    }

    pub fn schema(&self) -> (r: &ToolSchema)
        ensures
            schema_view(*r) == self.spec_schema(),
    {
        &self.schema
    }

    /// The limit on the output kept, in bytes.
    pub fn output_limit(&self) -> (r: usize)
        ensures
            r == self.spec_output_limit(),
    {
        self.output_limit
    }

    /// The arguments of a run: the command (required), the working directory
    /// (`cwd` under the project root, else the context's directory) and the
    /// timeout (else the tool's default).
    pub fn request(&self, input: &JsonValue, project_root: &str, cwd: &str) -> (r: Result<ShellRequest, ToolResult>)
        ensures
            match spec_get_str(input@, "command"@) {
                None => r matches Err(e) && result_view(e) == failed("Missing required parameter: "@ + "command"@),
                Some(c) => r matches Ok(q) && q.command@ == c && q.cwd@ == match spec_get_str(input@, "cwd"@) {
                    Some(p) => path_join(project_root@, p),
                    None => cwd@,
                } && q.timeout_ms == u64_or(spec_get_u64(input@, "timeout"@), self.spec_default_timeout()),
            },
    {
        let command = match input.get_str("command") {
            Some(c) => c,
            None => return Err(missing_parameter("command")),
        };
        let dir = match input.get_str("cwd") {
            Some(p) => join(project_root, p),
            None => cwd.to_owned(),
        };
        let timeout_ms = match input.get_u64("timeout") {
            Some(t) => t,
            None => self.default_timeout_ms,
        };
        Ok(ShellRequest { command: command.to_owned(), cwd: dir, timeout_ms })
    }
}

fn notice_chars(shown: u128, total: u128) -> (r: Vec<char>)
    ensures
        r@ == truncation_notice(shown as nat, total as nat),
{
    let mut v = chars_of("\n[Output truncated: showing first ");
    let d = u128_decimal(shown);
    push_all(&mut v, d.as_slice());
    push_str(&mut v, " of ");
    let t = u128_decimal(total);
    push_all(&mut v, t.as_slice());
    push_str(&mut v, " bytes. Use file_read with offset/limit to see specific sections.]\n");
    v
}

/// The result of a command that finished with `exit_code` (`success` when
/// its status was a success). When the two outputs together pass `limit`
/// bytes, each is cut to at most `limit / 2` bytes of whole characters.
pub fn shell_output(stdout: &str, stderr: &str, exit_code: i32, success: bool, limit: usize) -> (r: ToolResult)
    ensures
        ({
            let cut = over_limit(stdout@, stderr@, limit);
            let out = if cut {
                truncate_bytes(stdout@, (limit / 2) as nat)
            } else {
                stdout@
            };
            let err = if cut {
                truncate_bytes(stderr@, (limit / 2) as nat)
            } else {
                stderr@
            };
            result_view(r) == (ResultView {
                success,
                output: shell_text(exit_code as int, out, err) + if cut {
                    truncation_notice(
                        (byte_len(out) + byte_len(err)) as nat,
                        (byte_len(stdout@) + byte_len(stderr@)) as nat,
                    )
                } else {
                    Seq::empty()
                },
                metadata: seq![("exit_code"@, int_json(exit_code as int)), ("truncated"@, JsonView::Bool(cut))],
            })
        }),
{
    let a = stdout.len();
    let b = stderr.len();
    let cut = a > limit || b > limit - a;
    let (out, err) = if cut {
        (truncate_str(stdout, limit / 2), truncate_str(stderr, limit / 2))
    } else {
        (stdout.to_owned(), stderr.to_owned())
    };
    let mut v = chars_of("Exit code: ");
    let d = i64_decimal(exit_code as i64);
    push_all(&mut v, d.as_slice());
    push_str(&mut v, "\n");
    let ghost head = v@;
    if !out.as_str().is_empty() {
        push_str(&mut v, "\n--- stdout ---\n");
        push_str(&mut v, out.as_str());
        push_str(&mut v, "\n");
    }
    let ghost mid = v@;
    if !err.as_str().is_empty() {
        push_str(&mut v, "\n--- stderr ---\n");
        push_str(&mut v, err.as_str());
        push_str(&mut v, "\n");
    }
    assert(v@ =~= shell_text(exit_code as int, out@, err@));
    let ghost body = v@;
    if cut {
        let notice = notice_chars(
            out.as_str().len() as u128 + err.as_str().len() as u128,
            a as u128 + b as u128,
        );
        push_all(&mut v, notice.as_slice());
    } else {
        assert(v@ =~= body + Seq::<char>::empty());
    }
    let text = string_from_chars(v.as_slice());
    let code = if exit_code >= 0 {
        JsonValue::Number(JsonNumber::Unsigned(exit_code as u64))
    } else {
        JsonValue::Number(JsonNumber::Signed(exit_code as i64))
    };
    let r = ToolResult { success, output: text, metadata: crate::string_map::StringMap::new() };
    assert(json_pairs(r.metadata) =~= Seq::<(Seq<char>, JsonView)>::empty());
    let r = crate::file_tools::add_meta(r, "exit_code", code);
    proof {
        reveal_strlit("exit_code");
        reveal_strlit("truncated");
    }
    assert(json_pairs(r.metadata).len() == 1 && json_pairs(r.metadata)[0].0 == "exit_code"@);
    assert("exit_code"@[0] != "truncated"@[0]);
    let r = crate::file_tools::add_meta(r, "truncated", JsonValue::Bool(cut));
    assert(json_pairs(r.metadata) =~= seq![("exit_code"@, int_json(exit_code as int)), ("truncated"@, JsonView::Bool(cut))]);
    r
}

/// The result of a command that ran past `timeout_ms` milliseconds.
pub fn shell_timed_out(timeout_ms: u64) -> (r: ToolResult)
    ensures
        result_view(r) == (ResultView {
            success: false,
            output: "Command timed out after "@ + decimal(timeout_ms as nat) + "ms"@,
            metadata: seq![("timed_out"@, JsonView::Bool(true))],
        }),
{
    let mut v = chars_of("Command timed out after ");
    let d = u64_decimal(timeout_ms);
    push_all(&mut v, d.as_slice());
    push_str(&mut v, "ms");
    let s = string_from_chars(v.as_slice());
    let r = ToolResult::err(s.as_str());
    let r = crate::file_tools::add_meta(r, "timed_out", JsonValue::Bool(true));
    assert(json_pairs(r.metadata) =~= seq![("timed_out"@, JsonView::Bool(true))]);
    r
}

/// The text of a command's result starts with the exit code; the stdout
/// section, when there is output, follows the first line; the stderr
/// section, when there is error output, ends the text, whether or not there
/// was any stdout.
pub proof fn law_shell_text_sections(exit_code: int, stdout: Seq<char>, stderr: Seq<char>)
    ensures
        ({
            let t = shell_text(exit_code, stdout, stderr);
            let head = "Exit code: "@ + signed_decimal(exit_code) + "\n"@;
            let out_section = "\n--- stdout ---\n"@ + stdout + "\n"@;
            let err_section = "\n--- stderr ---\n"@ + stderr + "\n"@;
            &&& t.subrange(0, head.len() as int) == head
            &&& stdout.len() > 0 ==> t.subrange(head.len() as int, (head.len() + out_section.len()) as int) == out_section
            &&& stderr.len() > 0 ==> t.subrange(t.len() - err_section.len(), t.len() as int) == err_section
            &&& stdout.len() == 0 && stderr.len() == 0 ==> t == head
            &&& t.len() == head.len() + (if stdout.len() > 0 { out_section.len() } else { 0 }) + (if stderr.len() > 0 {
                err_section.len()
            } else {
                0
            })
        }),
{
    let t = shell_text(exit_code, stdout, stderr);
    let head = "Exit code: "@ + signed_decimal(exit_code) + "\n"@;
    let out_section = "\n--- stdout ---\n"@ + stdout + "\n"@;
    let err_section = "\n--- stderr ---\n"@ + stderr + "\n"@;
    let o = if stdout.len() > 0 { out_section } else { Seq::<char>::empty() };
    let e = if stderr.len() > 0 { err_section } else { Seq::<char>::empty() };
    assert(t =~= head + o + e);
    assert((head + o + e).subrange(0, head.len() as int) =~= head);
    if stdout.len() > 0 {
        assert((head + o + e).subrange(head.len() as int, (head.len() + out_section.len()) as int) =~= out_section);
    }
    if stderr.len() > 0 {
        assert((head + o + e).subrange(t.len() - err_section.len(), t.len() as int) =~= err_section);
    }
    if stdout.len() == 0 && stderr.len() == 0 {
        assert(head + o + e =~= head);
    }
}

} // verus!
