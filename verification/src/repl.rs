//! What the interactive loop does with a line of input, and the texts it
//! shows. Reading the terminal and running the turns happen at the edge of
//! the program.
use vstd::prelude::*;

use crate::commands::{classify, command_name, command_rest, lowercase, parse, CommandView, SlashCommand};
use crate::text::{chars_of, decimal, push_all, push_str, string_from_chars, trim, trim_str, u128_decimal, u64_decimal};
use crate::types::TokenUsage;

verus! {

/// What to do with a line of input.
#[derive(Clone, Debug, PartialEq, Eq)]
pub enum ReplStep {
    /// Nothing (an empty line).
    Skip,
    /// Leave the loop.
    Quit,
    /// Clear the conversation.
    Clear,
    /// Show the help.
    Help,
    /// Pin a file.
    AddFile { path: String },
    /// Show the token usage.
    Usage,
    /// Show the current configuration.
    Config,
    /// Report an unknown command.
    Unknown { message: String },
    /// Send the message to the orchestrator.
    Send { message: String },
}

/// A step, with texts as character sequences.
pub enum StepView {
    Skip,
    Quit,
    Clear,
    Help,
    AddFile(Seq<char>),
    Usage,
    Config,
    Unknown(Seq<char>),
    Send(Seq<char>),
}

pub open spec fn step_view(s: ReplStep) -> StepView {
    match s {
        ReplStep::Skip => StepView::Skip,
        ReplStep::Quit => StepView::Quit,
        ReplStep::Clear => StepView::Clear,
        ReplStep::Help => StepView::Help,
        ReplStep::AddFile { path } => StepView::AddFile(path@),
        ReplStep::Usage => StepView::Usage,
        ReplStep::Config => StepView::Config,
        ReplStep::Unknown { message } => StepView::Unknown(message@),
        ReplStep::Send { message } => StepView::Send(message@),
    }
}

/// The step for a slash command.
pub open spec fn command_step(c: CommandView) -> StepView {
    match c {
        CommandView::Quit => StepView::Quit,
        CommandView::Clear => StepView::Clear,
        CommandView::Help => StepView::Help,
        CommandView::Add(p) => StepView::AddFile(p),
        CommandView::Usage => StepView::Usage,
        CommandView::Config => StepView::Config,
        CommandView::Unknown(n) => StepView::Unknown(
            "Unknown command: /"@ + n + ". Type /help for available commands."@,
        ),
    }
}

/// The step for a line of input: nothing for a blank line, a command for a
/// line that starts with `/` (once trimmed), the trimmed line otherwise.
pub open spec fn input_step(line: Seq<char>) -> StepView {
    let t = trim(line);
    if t.len() == 0 {
        StepView::Skip
    } else if t[0] == '/' {
        command_step(classify(lowercase(command_name(t)), command_rest(t)))
    } else {
        StepView::Send(t)
    }
}

proof fn lemma_trim_idempotent(s: Seq<char>)
    ensures
        trim(trim(s)) == trim(s),
{
    let t = trim(s);
    crate::text::lemma_first_non_ws(s);
    crate::text::lemma_last_non_ws_end(crate::text::trim_start(s));
    crate::text::lemma_first_non_ws(t);
    crate::text::lemma_last_non_ws_end(t);
    if t.len() > 0 {
        crate::text::lemma_first_non_ws(crate::text::trim_start(s));
        assert(!crate::text::spec_is_whitespace(t[0]));
        assert(!crate::text::spec_is_whitespace(t.last()));
        assert(crate::text::first_non_ws(t) == 0);
        assert(crate::text::trim_start(t) =~= t);
        assert(crate::text::last_non_ws_end(t) == t.len());
        assert(trim(t) =~= t);
    } else {
        assert(trim(t) =~= t);
    }
}

/// What to do with a line of input.
pub fn repl_step(line: &str) -> (r: ReplStep)
    ensures
        step_view(r) == input_step(line@),
{
    let t = trim_str(line);
    if t.len() == 0 {
        return ReplStep::Skip;
    }
    let ts = string_from_chars(t.as_slice());
    if t[0] == '/' {
        proof {
            lemma_trim_idempotent(line@);
        }
        match parse(ts.as_str()) {
            SlashCommand::Quit => ReplStep::Quit,
            SlashCommand::Clear => ReplStep::Clear,
            SlashCommand::Help => ReplStep::Help,
            SlashCommand::Add { path } => ReplStep::AddFile { path },
            SlashCommand::Usage => ReplStep::Usage,
            SlashCommand::Config => ReplStep::Config,
            SlashCommand::Unknown { name } => {
                let mut v = chars_of("Unknown command: /");
                push_str(&mut v, name.as_str());
                push_str(&mut v, ". Type /help for available commands.");
                ReplStep::Unknown { message: string_from_chars(v.as_slice()) }
            },
        }
    } else {
        ReplStep::Send { message: ts }
    }
}

/// The line that reports token usage.
pub fn usage_line(usage: &TokenUsage) -> (r: String)
    ensures
        r@ == "Tokens used: "@ + decimal(usage.input_tokens as nat) + " input, "@ + decimal(usage.output_tokens as nat)
            + " output ("@ + decimal((usage.input_tokens + usage.output_tokens) as nat) + " total)"@,
{
    let mut v = chars_of("Tokens used: ");
    let a = u64_decimal(usage.input_tokens);
    push_all(&mut v, a.as_slice());
    push_str(&mut v, " input, ");
    let b = u64_decimal(usage.output_tokens);
    push_all(&mut v, b.as_slice());
    push_str(&mut v, " output (");
    let c = u128_decimal(usage.input_tokens as u128 + usage.output_tokens as u128);
    push_all(&mut v, c.as_slice());
    push_str(&mut v, " total)");
    string_from_chars(v.as_slice())
}

/// The line that confirms a pinned file.
pub fn added_line(path: &str) -> (r: String)
    ensures
        r@ == "Added "@ + path@ + " to context."@,
{
    let mut v = chars_of("Added ");
    push_str(&mut v, path);
    push_str(&mut v, " to context.");
    string_from_chars(v.as_slice())
}

/// The line that reports a file that could not be pinned; `detail` is the
/// system's error text.
pub fn add_failed_line(detail: &str) -> (r: String)
    ensures
        r@ == "Failed to add file: "@ + detail@,
{
    let mut v = chars_of("Failed to add file: ");
    push_str(&mut v, detail);
    string_from_chars(v.as_slice())
}

} // verus!
