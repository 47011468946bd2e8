//! Context manager.
//!
//! Assembles the prompt sent to the LLM provider on every turn. Manages the
//! system prompt, project context, conversation history, pinned files, and
//! token budget tracking. File contents are read by the caller and handed in.
use vstd::prelude::*;
use vstd::utf8::encode_utf8;

use crate::json::{compact_text, json_compact};
use crate::paths::{join, path_join};
use crate::text::{char_seqs, chars_of, join_chars, join_on, lines_of, push_str, str_lines, string_from_chars};
use crate::types::{
    content_views, copy_messages, message_view, message_views, AssistantContent, ContentView, Message,
    MessageView, TokenUsage, ToolResult, sat_sum,
};

verus! {

/// Assembled context ready to send to the provider.
#[derive(Debug)]
pub struct AssembledContext {
    /// The system prompt.
    pub system: String,
    /// The conversation history.
    pub messages: Vec<Message>,
    /// Token budget information.
    pub budget: TokenBudget,
}

/// Token budget status.
#[derive(Clone, Copy, Debug)]
pub struct TokenBudget {
    pub context_window_size: usize,
    pub used_tokens: usize,
    pub remaining_for_output: usize,
    pub warning_threshold: bool,
}

/// A file whose (truncated) content is part of every prompt.
#[derive(Clone, Debug)]
struct PinnedFile {
    path: String,
    content: String,
}

/// The number of bytes of the UTF-8 encoding of `s`, as `str::len` reports it.
pub open spec fn byte_len(s: Seq<char>) -> usize {
    encode_utf8(s).len() as usize
}

/// Rough token estimate: one token per 3.5 bytes, rounded up.
pub open spec fn token_estimate(s: Seq<char>) -> nat {
    ((2 * byte_len(s) + 6) / 7) as nat
}

/// The estimate of a list of content blocks.
pub open spec fn contents_tokens(cs: Seq<ContentView>) -> nat
    decreases cs.len(),
{
    if cs.len() == 0 {
        0
    } else {
        contents_tokens(cs.drop_last()) + match cs.last() {
            ContentView::Text(t) => token_estimate(t),
            ContentView::ToolUse(_, _, input) => token_estimate(json_compact(input)),
        }
    }
}

/// The estimate of one message.
pub open spec fn message_tokens(m: MessageView) -> nat {
    match m {
        MessageView::User(content) => token_estimate(content),
        MessageView::Assistant(cs) => contents_tokens(cs),
        MessageView::Tool(_, content) => token_estimate(content),
    }
}

/// The estimate of a conversation.
pub open spec fn conversation_tokens(ms: Seq<MessageView>) -> nat
    decreases ms.len(),
{
    if ms.len() == 0 {
        0
    } else {
        conversation_tokens(ms.drop_last()) + message_tokens(ms.last())
    }
}

/// `n` capped at `usize::MAX`.
pub open spec fn cap(n: nat) -> usize {
    if n > usize::MAX {
        usize::MAX
    } else {
        n as usize
    }
}

/// The number of user messages in a conversation.
pub open spec fn count_users(ms: Seq<MessageView>) -> nat
    decreases ms.len(),
{
    if ms.len() == 0 {
        0
    } else {
        count_users(ms.drop_last()) + if ms.last() is User {
            1nat
        } else {
            0nat
        }
    }
}

/// The first `n` lines of `content`, joined by newlines.
pub open spec fn first_lines(content: Seq<char>, n: nat) -> Seq<char> {
    let ls = str_lines(content);
    join_on(ls.subrange(0, if n < ls.len() { n as int } else { ls.len() as int }), seq!['\n'])
}

/// The default system prompt.
pub open spec fn default_prompt_text() -> Seq<char> {
    "You are Niya, a coding assistant that helps developers by reading, writing, and editing files, running shell commands, and searching codebases. You have access to tools for interacting with the project.

Guidelines:
- Always read files before editing them.
- Use targeted edits (file_edit) instead of rewriting entire files when possible.
- Run tests after making changes to verify correctness.
- Explain what you're doing before taking action.
- If a tool call fails, try to understand why and adapt."@
}

/// The default system prompt.
pub fn default_system_prompt() -> (r: String)
    ensures
        r@ == default_prompt_text(),
{
    "You are Niya, a coding assistant that helps developers by reading, writing, and editing files, running shell commands, and searching codebases. You have access to tools for interacting with the project.

Guidelines:
- Always read files before editing them.
- Use targeted edits (file_edit) instead of rewriting entire files when possible.
- Run tests after making changes to verify correctness.
- Explain what you're doing before taking action.
- If a tool call fails, try to understand why and adapt.".to_owned()
}

/// Rough token estimation: 1 token per 3.5 bytes of UTF-8, rounded up.
pub fn estimate_tokens(text: &str) -> (r: usize)
    ensures
        r == token_estimate(text@),
{
    let b = text.len();
    let t: u128 = (2 * (b as u128) + 6) / 7;
    assert(t <= b);
    t as usize
}

fn sat_add(a: usize, b: usize) -> (r: usize)
    ensures
        r == if a + b > usize::MAX {
            usize::MAX as int
        } else {
            a + b
        },
{
    if a > usize::MAX - b {
        usize::MAX
    } else {
        a + b
    }
}

/// The token estimate of a message (capped at `usize::MAX`).
pub fn estimate_message_tokens(message: &Message) -> (r: usize)
    ensures
        r == cap(message_tokens(message_view(*message))),
{
    match message {
        Message::User { content } => estimate_tokens(content.as_str()),
        Message::Assistant { content } => {
            let ghost cv = content_views(content@);
            let mut acc: usize = 0;
            let mut i: usize = 0;
            assert(cv.subrange(0, 0) =~= Seq::<ContentView>::empty());
            while i < content.len()
                invariant
                    i <= content@.len(),
                    cv == content_views(content@),
                    acc == cap(contents_tokens(cv.subrange(0, i as int))),
                decreases content@.len() - i,
            {
                let t = match &content[i] {
                    AssistantContent::Text { text } => estimate_tokens(text.as_str()),
                    AssistantContent::ToolUse { input, .. } => {
                        let text = compact_text(input);
                        estimate_tokens(text.as_str())
                    },
                };
                assert(cv.subrange(0, i + 1).drop_last() =~= cv.subrange(0, i as int));
                acc = sat_add(acc, t);
                i = i + 1;
            }
            assert(cv.subrange(0, cv.len() as int) =~= cv);
            acc
        },
        Message::Tool { content, .. } => estimate_tokens(content.as_str()),
    }
}

/// The first `max_lines` lines of `content`, joined by newlines.
pub fn truncate_lines(content: &str, max_lines: usize) -> (r: String)
    ensures
        r@ == first_lines(content@, max_lines as nat),
{
    let cs = chars_of(content);
    let ls = lines_of(cs.as_slice());
    let n = if max_lines < ls.len() {
        max_lines
    } else {
        ls.len()
    };
    let nl = chars_of("\n");
    proof {
        reveal_strlit("\n");
    }
    assert(nl@ =~= seq!['\n']);
    let joined = join_chars(ls.as_slice(), 0, n, nl.as_slice());
    string_from_chars(joined.as_slice())
}

/// The pieces of the assembled system prompt, in order.
pub open spec fn system_parts(
    prompt: Seq<char>,
    instructions: Option<Seq<char>>,
    project_context: Seq<Seq<char>>,
    pinned: Seq<(Seq<char>, Seq<char>)>,
) -> Seq<Seq<char>> {
    seq![prompt] + (match instructions {
        Some(i) => seq!["\n## Project Instructions\n\n"@ + i],
        None => Seq::empty(),
    }) + project_context.map_values(|c: Seq<char>| "\n## Project Context\n\n"@ + c)
        + pinned.map_values(|p: (Seq<char>, Seq<char>)| "\n## Pinned File: "@ + p.0 + "\n\n"@ + p.1)
}

/// The context manager that builds prompts and tracks conversation history.
#[derive(Debug)]
pub struct ContextManager {
    system_prompt: String,
    project_instructions: Option<String>,
    project_context: Vec<String>,
    pinned_files: Vec<PinnedFile>,
    conversation: Vec<Message>,
    context_window_size: usize,
    project_instruction_file: String,
    max_project_context_lines: usize,
    usage: TokenUsage,
}

spec fn pinned_views(ps: Seq<PinnedFile>) -> Seq<(Seq<char>, Seq<char>)> {
    ps.map_values(|p: PinnedFile| (p.path@, p.content@))
}

impl ContextManager {
    /// The system prompt.
    pub closed spec fn prompt(&self) -> Seq<char> {
        self.system_prompt@
    }

    /// The project instructions, if loaded.
    pub closed spec fn instructions(&self) -> Option<Seq<char>> {
        match self.project_instructions {
            Some(s) => Some(s@),
            None => None,
        }
    }

    /// The project context entries.
    pub closed spec fn project_context(&self) -> Seq<Seq<char>> {
        crate::text::string_views(self.project_context@)
    }

    /// The pinned files: path and content.
    pub closed spec fn pinned(&self) -> Seq<(Seq<char>, Seq<char>)> {
        pinned_views(self.pinned_files@)
    }

    /// The conversation so far.
    pub closed spec fn history(&self) -> Seq<MessageView> {
        message_views(self.conversation@)
    }

    /// The context window size, in tokens.
    pub closed spec fn window(&self) -> usize {
        self.context_window_size
    }

    /// The name of the project instruction file.
    pub closed spec fn instruction_file(&self) -> Seq<char> {
        self.project_instruction_file@
    }

    /// How many lines of a project file are taken into the context.
    pub closed spec fn max_lines(&self) -> usize {
        self.max_project_context_lines
    }

    /// The accumulated token usage.
    pub closed spec fn token_usage(&self) -> TokenUsage {
        self.usage
    }

    /// Whether `self` and `other` agree on everything but the conversation
    /// history and the token usage.
    pub open spec fn same_setting(&self, other: &ContextManager) -> bool {
        &&& self.prompt() == other.prompt()
        &&& self.instructions() == other.instructions()
        &&& self.project_context() == other.project_context()
        &&& self.pinned() == other.pinned()
        &&& self.window() == other.window()
        &&& self.instruction_file() == other.instruction_file()
        &&& self.max_lines() == other.max_lines()
    }

    /// The system prompt that [`ContextManager::assemble`] builds.
    pub open spec fn assembled_system(&self) -> Seq<char> {
        join_on(system_parts(self.prompt(), self.instructions(), self.project_context(), self.pinned()), seq!['\n'])
    }

    /// A manager for a model with a context window of `context_window_size`
    /// tokens, with the default system prompt and nothing else yet.
    pub fn new(context_window_size: usize) -> (cm: ContextManager)
        ensures
            cm.prompt() == default_prompt_text(),
            cm.instructions() is None,
            cm.project_context().len() == 0,
            cm.pinned().len() == 0,
            cm.history().len() == 0,
            cm.window() == context_window_size,
            cm.instruction_file() == "NIYA.md"@,
            cm.max_lines() == 200,
            cm.token_usage().input_tokens == 0,
            cm.token_usage().output_tokens == 0,
    {
        ContextManager {
            system_prompt: default_system_prompt(),
            project_instructions: None,
            project_context: Vec::new(),
            pinned_files: Vec::new(),
            conversation: Vec::new(),
            context_window_size,
            project_instruction_file: "NIYA.md".to_owned(),
            max_project_context_lines: 200,
            usage: TokenUsage { input_tokens: 0, output_tokens: 0 },
        }
    }

    /// Configure project-context loading behavior.
    pub fn configure_project_context(&mut self, project_instruction_file: &str, max_project_context_lines: usize)
        ensures
            final(self).instruction_file() == project_instruction_file@,
            final(self).max_lines() == if max_project_context_lines > 1 {
                max_project_context_lines
            } else {
                1
            },
            final(self).prompt() == old(self).prompt(),
            final(self).instructions() == old(self).instructions(),
            final(self).project_context() == old(self).project_context(),
            final(self).pinned() == old(self).pinned(),
            final(self).history() == old(self).history(),
            final(self).window() == old(self).window(),
            final(self).token_usage() == old(self).token_usage(),
    {
        self.project_instruction_file = project_instruction_file.to_owned();
        self.max_project_context_lines = if max_project_context_lines > 1 {
            max_project_context_lines
        } else {
            1
        };
    }

    /// The file names tried, in order, for the project README.
    pub fn readme_candidates() -> (r: Vec<String>)
        ensures
            crate::text::string_views(r@) == seq!["README.md"@, "README.rst"@, "README.txt"@, "README"@],
    {
        let mut v: Vec<String> = Vec::new();
        v.push("README.md".to_owned());
        v.push("README.rst".to_owned());
        v.push("README.txt".to_owned());
        v.push("README".to_owned());
        assert(crate::text::string_views(v@) =~= seq!["README.md"@, "README.rst"@, "README.txt"@, "README"@]);
        v
    }

    /// The name of the project instruction file.
    pub fn project_instruction_file(&self) -> (r: &str)
        ensures
            r@ == self.instruction_file(),
    {
        self.project_instruction_file.as_str()
    }

    /// Initialize from the project: `instructions` is the content of the
    /// instruction file when it exists; `readme` is the name and content of
    /// the first README candidate that exists. The README is cut to the
    /// configured number of lines.
    pub fn init(&mut self, instructions: Option<String>, readme: Option<(String, String)>)
        ensures
            final(self).instructions() == match instructions {
                Some(s) => Some(s@),
                None => old(self).instructions(),
            },
            final(self).project_context() == match readme {
                Some((name, content)) => old(self).project_context().push(
                    name@ + ":\n"@ + first_lines(content@, old(self).max_lines() as nat),
                ),
                None => old(self).project_context(),
            },
            final(self).prompt() == old(self).prompt(),
            final(self).pinned() == old(self).pinned(),
            final(self).history() == old(self).history(),
            final(self).window() == old(self).window(),
            final(self).instruction_file() == old(self).instruction_file(),
            final(self).max_lines() == old(self).max_lines(),
            final(self).token_usage() == old(self).token_usage(),
    {
        match instructions {
            Some(s) => {
                self.project_instructions = Some(s);
            },
            None => {},
        }
        match readme {
            Some((name, content)) => {
                let truncated = truncate_lines(content.as_str(), self.max_project_context_lines);
                let mut v = chars_of(name.as_str());
                push_str(&mut v, ":\n");
                push_str(&mut v, truncated.as_str());
                let ghost before = crate::text::string_views(self.project_context@);
                self.project_context.push(string_from_chars(v.as_slice()));
                assert(crate::text::string_views(self.project_context@) =~= before.push(
                    name@ + ":\n"@ + first_lines(content@, self.max_lines() as nat),
                ));
            },
            None => {},
        }
    }

    /// Add a user message to the conversation.
    pub fn add_user_message(&mut self, message: &str)
        ensures
            final(self).history() == old(self).history().push(MessageView::User(message@)),
            final(self).prompt() == old(self).prompt(),
            final(self).instructions() == old(self).instructions(),
            final(self).project_context() == old(self).project_context(),
            final(self).pinned() == old(self).pinned(),
            final(self).window() == old(self).window(),
            final(self).instruction_file() == old(self).instruction_file(),
            final(self).max_lines() == old(self).max_lines(),
            final(self).token_usage() == old(self).token_usage(),
    {
        let ghost before = message_views(self.conversation@);
        self.conversation.push(Message::User { content: message.to_owned() });
        assert(message_views(self.conversation@) =~= before.push(MessageView::User(message@)));
    }

    /// Add an assistant response to the conversation.
    pub fn add_assistant_message(&mut self, content: Vec<AssistantContent>)
        ensures
            final(self).history() == old(self).history().push(MessageView::Assistant(content_views(content@))),
            final(self).prompt() == old(self).prompt(),
            final(self).instructions() == old(self).instructions(),
            final(self).project_context() == old(self).project_context(),
            final(self).pinned() == old(self).pinned(),
            final(self).window() == old(self).window(),
            final(self).instruction_file() == old(self).instruction_file(),
            final(self).max_lines() == old(self).max_lines(),
            final(self).token_usage() == old(self).token_usage(),
    {
        let ghost before = message_views(self.conversation@);
        let ghost cv = content_views(content@);
        self.conversation.push(Message::Assistant { content });
        assert(message_views(self.conversation@) =~= before.push(MessageView::Assistant(cv)));
    }

    /// Add a tool result to the conversation.
    pub fn add_tool_result(&mut self, tool_call_id: &str, result: &ToolResult)
        ensures
            final(self).history() == old(self).history().push(MessageView::Tool(tool_call_id@, result.output@)),
            final(self).prompt() == old(self).prompt(),
            final(self).instructions() == old(self).instructions(),
            final(self).project_context() == old(self).project_context(),
            final(self).pinned() == old(self).pinned(),
            final(self).window() == old(self).window(),
            final(self).instruction_file() == old(self).instruction_file(),
            final(self).max_lines() == old(self).max_lines(),
            final(self).token_usage() == old(self).token_usage(),
    {
        let ghost before = message_views(self.conversation@);
        self.conversation.push(Message::Tool { tool_call_id: tool_call_id.to_owned(), content: result.output.clone() });
        assert(message_views(self.conversation@) =~= before.push(MessageView::Tool(tool_call_id@, result.output@)));
    }

    /// Pin a file: `path` is taken relative to `project_root`, and `content`
    /// (the file's content) is cut to the configured number of lines.
    pub fn add_file(&mut self, path: &str, project_root: &str, content: &str)
        ensures
            final(self).pinned() == old(self).pinned().push(
                (path_join(project_root@, path@), first_lines(content@, old(self).max_lines() as nat)),
            ),
            final(self).prompt() == old(self).prompt(),
            final(self).instructions() == old(self).instructions(),
            final(self).project_context() == old(self).project_context(),
            final(self).history() == old(self).history(),
            final(self).window() == old(self).window(),
            final(self).instruction_file() == old(self).instruction_file(),
            final(self).max_lines() == old(self).max_lines(),
            final(self).token_usage() == old(self).token_usage(),
    {
        let resolved = join(project_root, path);
        let truncated = truncate_lines(content, self.max_project_context_lines);
        let ghost before = pinned_views(self.pinned_files@);
        let ghost entry = (resolved@, truncated@);
        self.pinned_files.push(PinnedFile { path: resolved, content: truncated });
        assert(pinned_views(self.pinned_files@) =~= before.push(entry));
    }

    /// Assemble the full context for a provider call.
    pub fn assemble(&self) -> (r: AssembledContext)
        ensures
            r.system@ == self.assembled_system(),
            message_views(r.messages@) == self.history(),
            r.budget.context_window_size == self.window(),
            r.budget.used_tokens == cap(token_estimate(self.assembled_system()) + conversation_tokens(self.history())),
            r.budget.remaining_for_output == if r.budget.used_tokens <= self.window() {
                (self.window() - r.budget.used_tokens) as usize
            } else {
                0usize
            },
            r.budget.warning_threshold == (r.budget.used_tokens * 5 > self.window() * 4),
    {
        let ghost parts = system_parts(self.prompt(), self.instructions(), self.project_context(), self.pinned());
        let mut pieces: Vec<Vec<char>> = Vec::new();
        pieces.push(chars_of(self.system_prompt.as_str()));
        match &self.project_instructions {
            Some(instr) => {
                let mut v = chars_of("\n## Project Instructions\n\n");
                push_str(&mut v, instr.as_str());
                pieces.push(v);
            },
            None => {},
        }
        let ghost head = char_seqs(pieces@);
        assert(head =~= seq![self.prompt()] + (match self.instructions() {
            Some(i) => seq!["\n## Project Instructions\n\n"@ + i],
            None => Seq::<Seq<char>>::empty(),
        }));
        let mut i: usize = 0;
        while i < self.project_context.len()
            invariant
                i <= self.project_context@.len(),
                char_seqs(pieces@) == head + self.project_context().subrange(0, i as int).map_values(
                    |c: Seq<char>| "\n## Project Context\n\n"@ + c,
                ),
            decreases self.project_context@.len() - i,
        {
            let mut v = chars_of("\n## Project Context\n\n");
            push_str(&mut v, self.project_context[i].as_str());
            let ghost before = char_seqs(pieces@);
            let ghost vv = v@;
            pieces.push(v);
            assert(char_seqs(pieces@) =~= before.push(vv));
            assert(self.project_context()[i as int] == self.project_context@[i as int]@);
            assert(self.project_context().subrange(0, i + 1).map_values(|c: Seq<char>| "\n## Project Context\n\n"@ + c)
                =~= self.project_context().subrange(0, i as int).map_values(|c: Seq<char>| "\n## Project Context\n\n"@ + c).push(vv));
            i = i + 1;
        }
        assert(self.project_context().subrange(0, self.project_context@.len() as int) =~= self.project_context());
        let ghost head2 = char_seqs(pieces@);
        let mut j: usize = 0;
        while j < self.pinned_files.len()
            invariant
                j <= self.pinned_files@.len(),
                char_seqs(pieces@) == head2 + self.pinned().subrange(0, j as int).map_values(
                    |p: (Seq<char>, Seq<char>)| "\n## Pinned File: "@ + p.0 + "\n\n"@ + p.1,
                ),
            decreases self.pinned_files@.len() - j,
        {
            let mut v = chars_of("\n## Pinned File: ");
            push_str(&mut v, self.pinned_files[j].path.as_str());
            push_str(&mut v, "\n\n");
            push_str(&mut v, self.pinned_files[j].content.as_str());
            let ghost before = char_seqs(pieces@);
            let ghost vv = v@;
            pieces.push(v);
            assert(char_seqs(pieces@) =~= before.push(vv));
            assert(self.pinned()[j as int] == (self.pinned_files@[j as int].path@, self.pinned_files@[j as int].content@));
            assert(self.pinned().subrange(0, j + 1).map_values(|p: (Seq<char>, Seq<char>)| "\n## Pinned File: "@ + p.0 + "\n\n"@ + p.1)
                =~= self.pinned().subrange(0, j as int).map_values(|p: (Seq<char>, Seq<char>)| "\n## Pinned File: "@ + p.0 + "\n\n"@ + p.1).push(vv));
            j = j + 1;
        }
        assert(self.pinned().subrange(0, self.pinned_files@.len() as int) =~= self.pinned());
        assert(char_seqs(pieces@) =~= parts);
        let nl = chars_of("\n");
        proof {
            reveal_strlit("\n");
        }
        assert(nl@ =~= seq!['\n']);
        let joined = join_chars(pieces.as_slice(), 0, pieces.len(), nl.as_slice());
        assert(char_seqs(pieces@).subrange(0, pieces@.len() as int) =~= char_seqs(pieces@));
        let system = string_from_chars(joined.as_slice());
        let mut used = estimate_tokens(system.as_str());
        let ghost hv = message_views(self.conversation@);
        let mut k: usize = 0;
        assert(hv.subrange(0, 0) =~= Seq::<MessageView>::empty());
        while k < self.conversation.len()
            invariant
                k <= self.conversation@.len(),
                hv == message_views(self.conversation@),
                used == cap(token_estimate(system@) + conversation_tokens(hv.subrange(0, k as int))),
            decreases self.conversation@.len() - k,
        {
            let t = estimate_message_tokens(&self.conversation[k]);
            assert(hv.subrange(0, k + 1).drop_last() =~= hv.subrange(0, k as int));
            used = sat_add(used, t);
            k = k + 1;
        }
        assert(hv.subrange(0, hv.len() as int) =~= hv);
        let remaining = if used <= self.context_window_size {
            self.context_window_size - used
        } else {
            0
        };
        let warning = (used as u128) * 5 > (self.context_window_size as u128) * 4;
        AssembledContext {
            system,
            messages: copy_messages(&self.conversation),
            budget: TokenBudget {
                context_window_size: self.context_window_size,
                used_tokens: used,
                remaining_for_output: remaining,
                warning_threshold: warning,
            },
        }
    }

    /// Get current token usage stats.
    pub fn usage(&self) -> (r: &TokenUsage)
        ensures
            *r == self.token_usage(),
    {
        &self.usage
    }

    /// Record token usage from a provider response.
    pub fn record_usage(&mut self, input: u32, output: u32)
        ensures
            final(self).token_usage().input_tokens == sat_sum(old(self).token_usage().input_tokens as int, input as int),
            final(self).token_usage().output_tokens == sat_sum(old(self).token_usage().output_tokens as int, output as int),
            final(self).prompt() == old(self).prompt(),
            final(self).instructions() == old(self).instructions(),
            final(self).project_context() == old(self).project_context(),
            final(self).pinned() == old(self).pinned(),
            final(self).history() == old(self).history(),
            final(self).window() == old(self).window(),
            final(self).instruction_file() == old(self).instruction_file(),
            final(self).max_lines() == old(self).max_lines(),
    {
        self.usage.add(input, output);
    }

    /// Clear conversation history, pinned files and usage.
    pub fn reset(&mut self)
        ensures
            final(self).history().len() == 0,
            final(self).pinned().len() == 0,
            final(self).token_usage().input_tokens == 0,
            final(self).token_usage().output_tokens == 0,
            final(self).prompt() == old(self).prompt(),
            final(self).instructions() == old(self).instructions(),
            final(self).project_context() == old(self).project_context(),
            final(self).window() == old(self).window(),
            final(self).instruction_file() == old(self).instruction_file(),
            final(self).max_lines() == old(self).max_lines(),
    {
        self.conversation.clear();
        self.pinned_files.clear();
        self.usage = TokenUsage { input_tokens: 0, output_tokens: 0 };
        assert(message_views(self.conversation@) =~= Seq::<MessageView>::empty());
        assert(pinned_views(self.pinned_files@) =~= Seq::<(Seq<char>, Seq<char>)>::empty());
    }

    /// Number of user turns in the conversation.
    pub fn turn_count(&self) -> (r: usize)
        ensures
            r == count_users(self.history()),
    {
        let ghost hv = message_views(self.conversation@);
        let mut n: usize = 0;
        let mut k: usize = 0;
        assert(hv.subrange(0, 0) =~= Seq::<MessageView>::empty());
        while k < self.conversation.len()
            invariant
                k <= self.conversation@.len(),
                hv == message_views(self.conversation@),
                n == count_users(hv.subrange(0, k as int)),
                n <= k,
            decreases self.conversation@.len() - k,
        {
            assert(hv.subrange(0, k + 1).drop_last() =~= hv.subrange(0, k as int));
            match &self.conversation[k] {
                Message::User { .. } => {
                    n = n + 1;
                },
                _ => {},
            }
            k = k + 1;
        }
        assert(hv.subrange(0, hv.len() as int) =~= hv);
        n
    }
}

/// Adding a user message adds one turn; adding any other message adds none.
pub proof fn law_turns_count_user_messages(history: Seq<MessageView>, m: MessageView)
    ensures
        count_users(history.push(m)) == count_users(history) + if m is User {
            1nat
        } else {
            0nat
        },
{
    assert(history.push(m).drop_last() =~= history);
}

/// The text a message carries for the model: the content of a user or tool
/// message, and the text blocks of an assistant message, in order.
pub open spec fn message_text(m: MessageView) -> Seq<Seq<char>> {
    match m {
        MessageView::User(c) => seq![c],
        MessageView::Tool(_, c) => seq![c],
        MessageView::Assistant(cs) => cs.filter(|b: ContentView| b is Text).map_values(|b: ContentView| b->Text_0),
    }
}

/// Adding a message to a conversation adds at least the estimate of each of
/// its texts to the conversation's estimate: no text a message carries is
/// left out of the budget. A tool message in particular (a file read, a
/// command's output) counts exactly as its content does.
pub proof fn law_every_text_counts(h: Seq<MessageView>, m: MessageView, k: int)
    requires
        0 <= k < message_text(m).len(),
    ensures
        conversation_tokens(h.push(m)) >= conversation_tokens(h) + token_estimate(message_text(m)[k]),
        m is Tool ==> conversation_tokens(h.push(m)) == conversation_tokens(h) + token_estimate(m->Tool_1),
        m is User ==> conversation_tokens(h.push(m)) == conversation_tokens(h) + token_estimate(m->User_0),
{
    assert(h.push(m).drop_last() =~= h);
    match m {
        MessageView::Assistant(cs) => {
            lemma_text_blocks_count(cs, k);
        },
        _ => {},
    }
}

/// A text block of a list of content blocks counts in the list's estimate.
proof fn lemma_text_blocks_count(cs: Seq<ContentView>, k: int)
    requires
        0 <= k < cs.filter(|b: ContentView| b is Text).len(),
    ensures
        contents_tokens(cs) >= token_estimate(cs.filter(|b: ContentView| b is Text)[k]->Text_0),
    decreases cs.len(),
{
    let f = |b: ContentView| b is Text;
    reveal(Seq::filter);
    assert(cs.filter(f) == if f(cs.last()) {
        cs.drop_last().filter(f).push(cs.last())
    } else {
        cs.drop_last().filter(f)
    });
    if f(cs.last()) && k == cs.drop_last().filter(f).len() {
    } else {
        lemma_text_blocks_count(cs.drop_last(), k);
    }
}

} // verus!
