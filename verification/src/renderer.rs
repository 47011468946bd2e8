//! What the terminal renderer shows: one-line summaries of tool calls,
//! previews of tool results, and the texts of the banners. Writing to the
//! terminal, with or without colour, happens at the edge of the program.
use vstd::prelude::*;

use crate::context::byte_len;
use crate::json::{compact_text, json_compact, spec_get_str, JsonValue};
use crate::text::{chars_of, decimal, push_all, push_str, slice_chars, str_eq, string_from_chars, u64_decimal};
use crate::types::ToolResult;

verus! {

/// Renders orchestrator output events to the terminal.
#[derive(Clone, Copy, Debug)]
pub struct Renderer {
    pub color: bool,
    pub markdown: bool,
}

impl Renderer {
    pub fn new(color: bool, markdown: bool) -> (r: Self)
        ensures
            r.color == color,
            r.markdown == markdown,
    {
        Renderer { color, markdown }
    }
}

/// `s` cut to its first `max_len` characters with `…` added, when it is
/// longer.
pub open spec fn truncated_text(s: Seq<char>, max_len: nat) -> Seq<char> {
    if s.len() <= max_len {
        s
    } else {
        s.subrange(0, max_len as int) + "…"@
    }
}

/// Truncate a string to `max_len` characters, adding `…` if truncated.
pub fn truncate(s: &str, max_len: usize) -> (r: String)
    ensures
        r@ == truncated_text(s@, max_len as nat),
{
    let cs = chars_of(s);
    if cs.len() <= max_len {
        s.to_owned()
    } else {
        let mut v = slice_chars(cs.as_slice(), 0, max_len);
        push_str(&mut v, "…");
        string_from_chars(v.as_slice())
    }
}

/// `o`, or the empty text.
pub open spec fn or_empty(o: Option<Seq<char>>) -> Seq<char> {
    match o {
        Some(s) => s,
        None => Seq::empty(),
    }
}

/// A one-line summary of a tool call's arguments; tools not known here show
/// the compact JSON text of the arguments.
pub open spec fn tool_summary(tool_name: Seq<char>, args: crate::json::JsonView) -> Seq<char> {
    if tool_name == "file_read"@ || tool_name == "file_edit"@ {
        or_empty(spec_get_str(args, "file_path"@))
    } else if tool_name == "file_write"@ {
        (match spec_get_str(args, "file_path"@) {
            Some(p) => p,
            None => "?"@,
        }) + " ("@ + decimal(
            match spec_get_str(args, "content"@) {
                Some(c) => byte_len(c) as nat,
                None => 0,
            },
        ) + " bytes)"@
    } else if tool_name == "shell_execute"@ {
        match spec_get_str(args, "command"@) {
            Some(c) => truncated_text(c, 80),
            None => Seq::empty(),
        }
    } else if tool_name == "grep"@ || tool_name == "glob"@ {
        or_empty(spec_get_str(args, "pattern"@))
    } else {
        json_compact(args)
    }
}

/// Create a one-line summary of tool arguments for display.
pub fn summarise_tool_args(tool_name: &str, args: &JsonValue) -> (r: String)
    ensures
        r@ == tool_summary(tool_name@, args@),
{
    if str_eq(tool_name, "file_read") || str_eq(tool_name, "file_edit") {
        match args.get_str("file_path") {
            Some(p) => p.to_owned(),
            None => String::new(),
        }
    } else if str_eq(tool_name, "file_write") {
        let mut v = match args.get_str("file_path") {
            Some(p) => chars_of(p),
            None => chars_of("?"),
        };
        let len: usize = match args.get_str("content") {
            Some(c) => c.len(),
            None => 0,
        };
        push_str(&mut v, " (");
        let d = u64_decimal(len as u64);
        push_all(&mut v, d.as_slice());
        push_str(&mut v, " bytes)");
        string_from_chars(v.as_slice())
    } else if str_eq(tool_name, "shell_execute") {
        match args.get_str("command") {
            Some(c) => truncate(c, 80),
            None => String::new(),
        }
    } else if str_eq(tool_name, "grep") || str_eq(tool_name, "glob") {
        match args.get_str("pattern") {
            Some(p) => p.to_owned(),
            None => String::new(),
        }
    } else {
        compact_text(args)
    }
}

/// The preview line of a tool result: a tick or a cross, then the output
/// cut to 200 characters.
pub open spec fn result_preview(success: bool, output: Seq<char>) -> Seq<char> {
    (if success {
        "✔"@
    } else {
        "✘"@
    }) + " "@ + truncated_text(output, 200)
}

/// The preview line of a tool result.
pub fn preview_result(result: &ToolResult) -> (r: String)
    ensures
        r@ == result_preview(result.success, result.output@),
{
    let mut v = if result.success {
        chars_of("✔")
    } else {
        chars_of("✘")
    };
    push_str(&mut v, " ");
    let t = truncate(result.output.as_str(), 200);
    push_str(&mut v, t.as_str());
    string_from_chars(v.as_slice())
}

/// The slash commands and what they do, as the help lists them.
pub fn help_entries() -> (r: Vec<(String, String)>)
    ensures
        r@.len() == 6,
        r@[0].0@ == "/help"@ && r@[0].1@ == "Show this help message"@,
        r@[1].0@ == "/clear"@ && r@[1].1@ == "Clear conversation history"@,
        r@[2].0@ == "/add <path>"@ && r@[2].1@ == "Add a file to the context"@,
        r@[3].0@ == "/usage"@ && r@[3].1@ == "Show token usage statistics"@,
        r@[4].0@ == "/config"@ && r@[4].1@ == "Show current configuration"@,
        r@[5].0@ == "/quit"@ && r@[5].1@ == "Exit Niya"@,
{
    let mut v: Vec<(String, String)> = Vec::new();
    v.push(("/help".to_owned(), "Show this help message".to_owned()));
    v.push(("/clear".to_owned(), "Clear conversation history".to_owned()));
    v.push(("/add <path>".to_owned(), "Add a file to the context".to_owned()));
    v.push(("/usage".to_owned(), "Show token usage statistics".to_owned()));
    v.push(("/config".to_owned(), "Show current configuration".to_owned()));
    v.push(("/quit".to_owned(), "Exit Niya".to_owned()));
    v
}

/// A truncated text is at most one character longer than the limit: the
/// cut text holds exactly `max_len` characters and the ellipsis adds one.
pub proof fn law_truncated_length(s: Seq<char>, max_len: nat)
    ensures
        truncated_text(s, max_len).len() <= max_len + 1,
        s.len() <= max_len ==> truncated_text(s, max_len) == s,
{
    reveal_strlit("…");
}

} // verus!
