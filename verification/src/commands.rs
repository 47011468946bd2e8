//! Slash command parsing.
//!
//! Parses user input that starts with `/` into structured commands.
//! Unknown commands are preserved so the REPL can report them.
use vstd::prelude::*;

use crate::text::{is_whitespace, slice_chars, spec_is_whitespace, str_eq, string_from_chars, trim, trim_chars, trim_str};

verus! {

/// A parsed slash command.
#[derive(Clone, Debug, PartialEq, Eq)]
pub enum SlashCommand {
    /// Exit the REPL.
    Quit,
    /// Clear conversation history.
    Clear,
    /// Show help.
    Help,
    /// Add a file to the context.
    Add { path: String },
    /// Show token usage.
    Usage,
    /// Show the current configuration.
    Config,
    /// Unrecognised command.
    Unknown { name: String },
}

/// A slash command, with texts as character sequences.
pub enum CommandView {
    Quit,
    Clear,
    Help,
    Add(Seq<char>),
    Usage,
    Config,
    Unknown(Seq<char>),
}

pub open spec fn command_view(c: SlashCommand) -> CommandView {
    match c {
        SlashCommand::Quit => CommandView::Quit,
        SlashCommand::Clear => CommandView::Clear,
        SlashCommand::Help => CommandView::Help,
        SlashCommand::Add { path } => CommandView::Add(path@),
        SlashCommand::Usage => CommandView::Usage,
        SlashCommand::Config => CommandView::Config,
        SlashCommand::Unknown { name } => CommandView::Unknown(name@),
    }
}

/// The lowercase form of `s`, as `str::to_lowercase` gives it (by the
/// Unicode `Lowercase` property).
pub uninterp spec fn lowercase(s: Seq<char>) -> Seq<char>;

/// Whether every character of `s` is ASCII.
pub open spec fn all_ascii(s: Seq<char>) -> bool {
    forall|i: int| 0 <= i < s.len() ==> (#[trigger] s[i] as u32) < 0x80
}

/// `c` with an ASCII capital letter turned into the small letter.
pub open spec fn ascii_lower_char(c: char) -> char {
    if 65 <= (c as u32) <= 90 {
        ((c as u32) + 32) as char
    } else {
        c
    }
}

/// `s` with its ASCII capital letters turned into small letters.
pub open spec fn ascii_lower(s: Seq<char>) -> Seq<char> {
    s.map_values(|c: char| ascii_lower_char(c))
}

/// `str::to_lowercase`. The contract claims the result is `lowercase` of
/// the text, and that on ASCII text it lowers exactly the capital letters
/// A to Z (the Unicode mapping of ASCII letters), leaving all else as it is.
#[verifier::external_body]
fn to_lowercase(s: &str) -> (r: String)
    ensures
        r@ == lowercase(s@),
        all_ascii(s@) ==> r@ == ascii_lower(s@),
{
    s.to_lowercase()
}

/// Index of the first whitespace character of `s` (or `s.len()`).
pub open spec fn first_ws(s: Seq<char>) -> int
    decreases s.len(),
{
    if s.len() == 0 {
        0
    } else if spec_is_whitespace(s[0]) {
        0
    } else {
        1 + first_ws(s.drop_first())
    }
}

proof fn lemma_first_ws(s: Seq<char>)
    ensures
        0 <= first_ws(s) <= s.len(),
        forall|j: int| 0 <= j < first_ws(s) ==> !spec_is_whitespace(#[trigger] s[j]),
        first_ws(s) < s.len() ==> spec_is_whitespace(s[first_ws(s)]),
    decreases s.len(),
{
    if s.len() > 0 && !spec_is_whitespace(s[0]) {
        lemma_first_ws(s.drop_first());
        assert forall|j: int| 0 <= j < first_ws(s) implies !spec_is_whitespace(#[trigger] s[j]) by {
            if j > 0 {
                assert(s[j] == s.drop_first()[j - 1]);
            }
        }
    }
}

/// The input after its leading `/` (the input is trimmed first).
pub open spec fn command_body(input: Seq<char>) -> Seq<char> {
    trim(input).drop_first()
}

/// The command's name: the body up to its first whitespace.
pub open spec fn command_name(input: Seq<char>) -> Seq<char> {
    let body = command_body(input);
    body.subrange(0, first_ws(body))
}

/// The command's argument: what follows the first whitespace of the body,
/// trimmed; empty when the body has no whitespace.
pub open spec fn command_rest(input: Seq<char>) -> Seq<char> {
    let body = command_body(input);
    let k = first_ws(body);
    if k < body.len() {
        trim(body.subrange(k + 1, body.len() as int))
    } else {
        Seq::empty()
    }
}

/// The command with (lowercased) name `name` and argument `rest`.
pub open spec fn classify(name: Seq<char>, rest: Seq<char>) -> CommandView {
    if name == "quit"@ || name == "q"@ || name == "exit"@ {
        CommandView::Quit
    } else if name == "clear"@ || name == "reset"@ {
        CommandView::Clear
    } else if name == "help"@ || name == "h"@ || name == "?"@ {
        CommandView::Help
    } else if name == "add"@ {
        if rest.len() == 0 {
            CommandView::Unknown("add (missing path argument)"@)
        } else {
            CommandView::Add(rest)
        }
    } else if name == "usage"@ || name == "tokens"@ {
        CommandView::Usage
    } else if name == "config"@ {
        CommandView::Config
    } else {
        CommandView::Unknown(name)
    }
}

/// The command with (lowercased) name `name` and (trimmed) argument `rest`.
pub fn classify_command(name: &str, rest: &str) -> (r: SlashCommand)
    ensures
        command_view(r) == classify(name@, rest@),
{
    if str_eq(name, "quit") || str_eq(name, "q") || str_eq(name, "exit") {
        SlashCommand::Quit
    } else if str_eq(name, "clear") || str_eq(name, "reset") {
        SlashCommand::Clear
    } else if str_eq(name, "help") || str_eq(name, "h") || str_eq(name, "?") {
        SlashCommand::Help
    } else if str_eq(name, "add") {
        if rest.is_empty() {
            SlashCommand::Unknown { name: "add (missing path argument)".to_owned() }
        } else {
            SlashCommand::Add { path: rest.to_owned() }
        }
    } else if str_eq(name, "usage") || str_eq(name, "tokens") {
        SlashCommand::Usage
    } else if str_eq(name, "config") {
        SlashCommand::Config
    } else {
        SlashCommand::Unknown { name: name.to_owned() }
    }
}

fn find_ws(s: &[char]) -> (r: usize)
    ensures
        r == first_ws(s@),
{
    let mut i: usize = 0;
    assert(s@.subrange(0, s@.len() as int) =~= s@);
    while i < s.len() && !is_whitespace(s[i])
        invariant
            i <= s@.len(),
            first_ws(s@) == i + first_ws(s@.subrange(i as int, s@.len() as int)),
        decreases s@.len() - i,
    {
        assert(s@.subrange(i as int, s@.len() as int).drop_first() =~= s@.subrange(i + 1, s@.len() as int));
        i = i + 1;
    }
    i
}

/// Parse a slash command from user input. The trimmed input must be
/// non-empty and begin with a one-byte (ASCII) character, normally `/`.
pub fn parse(input: &str) -> (r: SlashCommand)
    requires
        trim(input@).len() > 0,
        (trim(input@)[0] as u32) < 0x80,
    ensures
        command_view(r) == classify(lowercase(command_name(input@)), command_rest(input@)),
        all_ascii(command_name(input@)) ==> command_view(r) == classify(
            ascii_lower(command_name(input@)),
            command_rest(input@),
        ),
{
    let s = trim_str(input);
    let body = slice_chars(s.as_slice(), 1, s.len());
    assert(body@ =~= command_body(input@));
    let k = find_ws(body.as_slice());
    proof {
        lemma_first_ws(body@);
    }
    let name = slice_chars(body.as_slice(), 0, k);
    let rest = if k < body.len() {
        let tail = slice_chars(body.as_slice(), k + 1, body.len());
        trim_chars(tail.as_slice())
    } else {
        Vec::new()
    };
    assert(rest@ =~= command_rest(input@));
    let name_s = string_from_chars(name.as_slice());
    let lower = to_lowercase(name_s.as_str());
    let rest_s = string_from_chars(rest.as_slice());
    classify_command(lower.as_str(), rest_s.as_str())
}

} // verus!
