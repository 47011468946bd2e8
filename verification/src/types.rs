//! Core types: conversation messages, tool schemas and results, provider
//! requests and stream chunks, permission decisions, output events, token
//! usage and errors.
use vstd::prelude::*;

use crate::json::{JsonValue, JsonView};
use crate::string_map::{has_key, json_pairs, StringMap};
use crate::text::{chars_of, push_all, push_str, decimal, string_from_chars, u64_decimal};

verus! {

// ---------------------------------------------------------------------------
// Messages (the conversation format)
// ---------------------------------------------------------------------------

/// A single message in the conversation history.
#[derive(Clone, Debug)]
pub enum Message {
    User { content: String },
    Assistant { content: Vec<AssistantContent> },
    Tool { tool_call_id: String, content: String },
}

/// Content blocks within an assistant message.
#[derive(Clone, Debug)]
pub enum AssistantContent {
    Text { text: String },
    ToolUse { id: String, name: String, input: JsonValue },
}

/// An assistant content block, with texts as character sequences.
pub enum ContentView {
    Text(Seq<char>),
    ToolUse(Seq<char>, Seq<char>, JsonView),
}

/// A message, with texts as character sequences.
pub enum MessageView {
    User(Seq<char>),
    Assistant(Seq<ContentView>),
    Tool(Seq<char>, Seq<char>),
}

pub open spec fn content_view(c: AssistantContent) -> ContentView {
    match c {
        AssistantContent::Text { text } => ContentView::Text(text@),
        AssistantContent::ToolUse { id, name, input } => ContentView::ToolUse(id@, name@, input@),
    }
}

pub open spec fn content_views(cs: Seq<AssistantContent>) -> Seq<ContentView> {
    cs.map_values(|c: AssistantContent| content_view(c))
}

pub open spec fn message_view(m: Message) -> MessageView {
    match m {
        Message::User { content } => MessageView::User(content@),
        Message::Assistant { content } => MessageView::Assistant(content_views(content@)),
        Message::Tool { tool_call_id, content } => MessageView::Tool(tool_call_id@, content@),
    }
}

pub open spec fn message_views(ms: Seq<Message>) -> Seq<MessageView> {
    ms.map_values(|m: Message| message_view(m))
}

impl AssistantContent {
    /// A copy of this block.
    pub fn copy(&self) -> (r: AssistantContent)
        ensures
            content_view(r) == content_view(*self),
    {
        match self {
            AssistantContent::Text { text } => AssistantContent::Text { text: text.clone() },
            AssistantContent::ToolUse { id, name, input } => AssistantContent::ToolUse {
                id: id.clone(),
                name: name.clone(),
                input: input.copy(),
            },
        }
    }
}

/// A copy of a list of content blocks.
pub fn copy_contents(cs: &Vec<AssistantContent>) -> (r: Vec<AssistantContent>)
    ensures
        content_views(r@) == content_views(cs@),
{
    let mut out: Vec<AssistantContent> = Vec::new();
    let mut i: usize = 0;
    while i < cs.len()
        invariant
            i <= cs@.len(),
            content_views(out@) == content_views(cs@).subrange(0, i as int),
        decreases cs@.len() - i,
    {
        let ghost before = out@;
        out.push(cs[i].copy());
        assert(content_views(out@) =~= content_views(before).push(content_view(cs@[i as int])));
        assert(content_views(cs@).subrange(0, i + 1) =~= content_views(cs@).subrange(0, i as int).push(content_view(cs@[i as int])));
        i = i + 1;
    }
    assert(content_views(cs@).subrange(0, cs@.len() as int) =~= content_views(cs@));
    out
}

impl Message {
    /// A copy of this message.
    pub fn copy(&self) -> (r: Message)
        ensures
            message_view(r) == message_view(*self),
    {
        match self {
            Message::User { content } => Message::User { content: content.clone() },
            Message::Assistant { content } => Message::Assistant { content: copy_contents(content) },
            Message::Tool { tool_call_id, content } => Message::Tool {
                tool_call_id: tool_call_id.clone(),
                content: content.clone(),
            },
        }
    }
}

/// A copy of a list of messages.
pub fn copy_messages(ms: &Vec<Message>) -> (r: Vec<Message>)
    ensures
        message_views(r@) == message_views(ms@),
{
    let mut out: Vec<Message> = Vec::new();
    let mut i: usize = 0;
    while i < ms.len()
        invariant
            i <= ms@.len(),
            message_views(out@) == message_views(ms@).subrange(0, i as int),
        decreases ms@.len() - i,
    {
        let ghost before = out@;
        out.push(ms[i].copy());
        assert(message_views(out@) =~= message_views(before).push(message_view(ms@[i as int])));
        assert(message_views(ms@).subrange(0, i + 1) =~= message_views(ms@).subrange(0, i as int).push(message_view(ms@[i as int])));
        i = i + 1;
    }
    assert(message_views(ms@).subrange(0, ms@.len() as int) =~= message_views(ms@));
    out
}

// ---------------------------------------------------------------------------
// Tool schemas and results
// ---------------------------------------------------------------------------

/// Schema describing a tool's interface, sent to the LLM provider.
#[derive(Clone, Debug)]
pub struct ToolSchema {
    pub name: String,
    pub description: String,
    pub parameters: JsonValue,
}

/// A tool schema, with texts as character sequences.
pub struct SchemaView {
    pub name: Seq<char>,
    pub description: Seq<char>,
    pub parameters: JsonView,
}

pub open spec fn schema_view(s: ToolSchema) -> SchemaView {
    SchemaView { name: s.name@, description: s.description@, parameters: s.parameters@ }
}

pub open spec fn schema_views(s: Seq<ToolSchema>) -> Seq<SchemaView> {
    s.map_values(|x: ToolSchema| schema_view(x))
}

impl ToolSchema {
    /// A copy of this schema.
    pub fn copy(&self) -> (r: ToolSchema)
        ensures
            schema_view(r) == schema_view(*self),
    {
        ToolSchema {
            name: self.name.clone(),
            description: self.description.clone(),
            parameters: self.parameters.copy(),
        }
    }
}

/// Result returned by a tool after execution.
#[derive(Clone, Debug)]
pub struct ToolResult {
    pub success: bool,
    pub output: String,
    pub metadata: StringMap<JsonValue>,
}

/// A tool result: success, output characters, and metadata entries by view.
pub struct ResultView {
    pub success: bool,
    pub output: Seq<char>,
    pub metadata: Seq<(Seq<char>, JsonView)>,
}

pub open spec fn result_view(r: ToolResult) -> ResultView {
    ResultView { success: r.success, output: r.output@, metadata: json_pairs(r.metadata) }
}

impl ToolResult {
    /// A copy of this result.
    pub fn copy(&self) -> (r: ToolResult)
        ensures
            result_view(r) == result_view(*self),
    {
        ToolResult { success: self.success, output: self.output.clone(), metadata: self.metadata.copy() }
    }

    /// A successful result.
    pub fn ok(output: &str) -> (r: ToolResult)
        ensures
            r.success,
            r.output@ == output@,
            r.metadata@ == Map::<Seq<char>, JsonValue>::empty(),
            r.metadata.pairs().len() == 0,
            result_view(r) == (ResultView { success: true, output: output@, metadata: Seq::empty() }),
    {
        let m = StringMap::new();
        assert(json_pairs(m) =~= Seq::<(Seq<char>, JsonView)>::empty());
        ToolResult { success: true, output: output.to_owned(), metadata: m }
    }

    /// An error result.
    pub fn err(output: &str) -> (r: ToolResult)
        ensures
            !r.success,
            r.output@ == output@,
            r.metadata@ == Map::<Seq<char>, JsonValue>::empty(),
            r.metadata.pairs().len() == 0,
            result_view(r) == (ResultView { success: false, output: output@, metadata: Seq::empty() }),
    {
        let m = StringMap::new();
        assert(json_pairs(m) =~= Seq::<(Seq<char>, JsonView)>::empty());
        ToolResult { success: false, output: output.to_owned(), metadata: m }
    }

    /// This result with the metadata entry `key: value` added (replacing an
    /// earlier entry with the same key).
    pub fn with_meta(self, key: &str, value: JsonValue) -> (r: ToolResult)
        ensures
            r.success == self.success,
            r.output == self.output,
            r.metadata@ == self.metadata@.insert(key@, value),
            !has_key(self.metadata.pairs(), key@) ==> json_pairs(r.metadata) == json_pairs(self.metadata).push(
                (key@, value@),
            ),
    {
        let mut s = self;
        let ghost before = json_pairs(s.metadata);
        let ghost vv = value@;
        s.metadata.insert(key.to_owned(), value);
        proof {
            if !has_key(self.metadata.pairs(), key@) {
                assert(json_pairs(s.metadata) =~= before.push((key@, vv)));
            }
        }
        s
    }
}

// ---------------------------------------------------------------------------
// Provider communication
// ---------------------------------------------------------------------------

/// A request to the LLM provider.
#[derive(Clone, Debug)]
pub struct ChatRequest {
    pub system: String,
    pub messages: Vec<Message>,
    pub tools: Vec<ToolSchema>,
    pub model: String,
    pub max_tokens: u32,
}

/// A streaming chunk from the provider response.
#[derive(Clone, Debug)]
pub enum ChatResponseChunk {
    /// A piece of text output.
    TextDelta { text: String },
    /// A tool call is starting.
    ToolUseStart { id: String, name: String },
    /// Incremental JSON input for a tool call.
    ToolUseDelta { id: String, input_delta: String },
    /// A tool call is complete with parsed input.
    ToolUseEnd { id: String, input: JsonValue },
    /// Token usage for this response.
    Usage { input_tokens: u32, output_tokens: u32 },
    /// The response is complete.
    Done,
    /// An error occurred.
    Error { error: ProviderError },
}

/// A stream chunk, with texts as character sequences and values by their views.
pub enum ChunkView {
    TextDelta(Seq<char>),
    ToolUseStart(Seq<char>, Seq<char>),
    ToolUseDelta(Seq<char>, Seq<char>),
    ToolUseEnd(Seq<char>, JsonView),
    Usage(u32, u32),
    Done,
    Error(ProviderError),
}

pub open spec fn chunk_view(c: ChatResponseChunk) -> ChunkView {
    match c {
        ChatResponseChunk::TextDelta { text } => ChunkView::TextDelta(text@),
        ChatResponseChunk::ToolUseStart { id, name } => ChunkView::ToolUseStart(id@, name@),
        ChatResponseChunk::ToolUseDelta { id, input_delta } => ChunkView::ToolUseDelta(id@, input_delta@),
        ChatResponseChunk::ToolUseEnd { id, input } => ChunkView::ToolUseEnd(id@, input@),
        ChatResponseChunk::Usage { input_tokens, output_tokens } => ChunkView::Usage(input_tokens, output_tokens),
        ChatResponseChunk::Done => ChunkView::Done,
        ChatResponseChunk::Error { error } => ChunkView::Error(error),
    }
}

/// An error from the LLM provider.
#[derive(Clone, Debug)]
pub enum ProviderError {
    Auth { message: String },
    RateLimit { message: String, retry_after_ms: Option<u64> },
    ContextLength { message: String },
    Server { message: String },
    Network { message: String },
    Unknown { message: String },
}

/// The text that describes a provider error.
pub open spec fn provider_error_text(e: ProviderError) -> Seq<char> {
    match e {
        ProviderError::Auth { message } => "Authentication failed: "@ + message@,
        ProviderError::RateLimit { message, .. } => "Rate limited: "@ + message@,
        ProviderError::ContextLength { message } => "Context length exceeded: "@ + message@,
        ProviderError::Server { message } => "Server error: "@ + message@,
        ProviderError::Network { message } => "Network error: "@ + message@,
        ProviderError::Unknown { message } => "Unknown error: "@ + message@,
    }
}

impl ProviderError {
    /// The text that describes this error.
    pub fn describe(&self) -> (r: String)
        ensures
            r@ == provider_error_text(*self),
    {
        let (prefix, message) = match self {
            ProviderError::Auth { message } => ("Authentication failed: ", message),
            ProviderError::RateLimit { message, .. } => ("Rate limited: ", message),
            ProviderError::ContextLength { message } => ("Context length exceeded: ", message),
            ProviderError::Server { message } => ("Server error: ", message),
            ProviderError::Network { message } => ("Network error: ", message),
            ProviderError::Unknown { message } => ("Unknown error: ", message),
        };
        let mut v = chars_of(prefix);
        push_str(&mut v, message.as_str());
        string_from_chars(v.as_slice())
    }
}

// ---------------------------------------------------------------------------
// Permission decisions
// ---------------------------------------------------------------------------

/// The result of a permission check for a tool invocation.
#[derive(Clone, Debug)]
pub enum PermissionDecision {
    /// The tool call is allowed.
    Allow,
    /// The tool call is denied.
    Deny { reason: String },
    /// The user must be asked for approval.
    Ask { message: String },
}

// ---------------------------------------------------------------------------
// Output events (orchestrator -> CLI)
// ---------------------------------------------------------------------------

/// Events emitted by the orchestrator, consumed by the CLI for rendering.
#[derive(Debug)]
pub enum OutputEvent {
    /// A token of text from the model.
    Token { text: String },
    /// A tool is about to be called.
    ToolCall { tool_name: String, args: JsonValue },
    /// A tool has returned a result.
    ToolResult { tool_name: String, result: ToolResult },
    /// The user must approve a tool call.
    ApprovalRequest { tool_name: String, args: JsonValue, message: String },
    /// A status message (e.g., "Thinking...").
    Status { message: String },
    /// An error occurred.
    Error { error: NexusError },
    /// The current turn is complete.
    Done,
}

// ---------------------------------------------------------------------------
// Context for tool execution
// ---------------------------------------------------------------------------

/// Runtime context passed to tools during execution.
#[derive(Clone, Debug)]
pub struct ToolContext {
    /// Absolute path to the project root directory.
    pub project_root: String,
    /// Current working directory (usually same as project_root).
    pub cwd: String,
    /// Environment variables available to shell commands.
    pub env: StringMap<String>,
}

// ---------------------------------------------------------------------------
// Token usage tracking
// ---------------------------------------------------------------------------

/// Accumulated token usage for a session.
#[derive(Clone, Copy, Debug)]
pub struct TokenUsage {
    pub input_tokens: u64,
    pub output_tokens: u64,
}

impl Default for TokenUsage {
    fn default() -> (r: Self)
        ensures
            r.input_tokens == 0,
            r.output_tokens == 0,
    {
        TokenUsage { input_tokens: 0, output_tokens: 0 }
    }
}

/// `a + b`, or `u64::MAX` when the sum does not fit.
pub open spec fn sat_sum(a: int, b: int) -> u64 {
    if a + b <= u64::MAX {
        (a + b) as u64
    } else {
        u64::MAX
    }
}

impl TokenUsage {
    /// Input and output tokens together (at most `u64::MAX`).
    pub fn total(&self) -> (r: u64)
        ensures
            r == sat_sum(self.input_tokens as int, self.output_tokens as int),
    {
        self.input_tokens.saturating_add(self.output_tokens)
    }

    /// Adds the usage of one provider response; a count stops at `u64::MAX`.
    pub fn add(&mut self, input: u32, output: u32)
        ensures
            final(self).input_tokens == sat_sum(old(self).input_tokens as int, input as int),
            final(self).output_tokens == sat_sum(old(self).output_tokens as int, output as int),
    {
        self.input_tokens = self.input_tokens.saturating_add(input as u64);
        self.output_tokens = self.output_tokens.saturating_add(output as u64);
    }
}

// ---------------------------------------------------------------------------
// Errors
// ---------------------------------------------------------------------------

/// Top-level error type.
#[derive(Debug)]
pub enum NexusError {
    Provider(ProviderError),
    ToolExecution(String),
    Config(String),
    Permission(String),
    ContextOverflow { used: usize, limit: usize },
    MaxIterations(usize),
    Cancelled,
    /// Any other failure, by its description.
    Other(String),
}

/// The text that describes an error.
pub open spec fn error_text(e: NexusError) -> Seq<char> {
    match e {
        NexusError::Provider(p) => "Provider error: "@ + provider_error_text(p),
        NexusError::ToolExecution(s) => "Tool execution failed: "@ + s@,
        NexusError::Config(s) => "Configuration error: "@ + s@,
        NexusError::Permission(s) => "Permission denied: "@ + s@,
        NexusError::ContextOverflow { used, limit } => "Context overflow: used "@ + decimal(
            used as nat,
        ) + " tokens, limit is "@ + decimal(limit as nat),
        NexusError::MaxIterations(n) => "Max iterations reached: "@ + decimal(n as nat),
        NexusError::Cancelled => "Cancelled by user"@,
        NexusError::Other(s) => s@,
    }
}

impl NexusError {
    /// The text that describes this error.
    pub fn describe(&self) -> (r: String)
        ensures
            r@ == error_text(*self),
    {
        match self {
            NexusError::Provider(p) => {
                let mut v = chars_of("Provider error: ");
                let d = p.describe();
                push_str(&mut v, d.as_str());
                string_from_chars(v.as_slice())
            },
            NexusError::ToolExecution(s) => {
                let mut v = chars_of("Tool execution failed: ");
                push_str(&mut v, s.as_str());
                string_from_chars(v.as_slice())
            },
            NexusError::Config(s) => {
                let mut v = chars_of("Configuration error: ");
                push_str(&mut v, s.as_str());
                string_from_chars(v.as_slice())
            },
            NexusError::Permission(s) => {
                let mut v = chars_of("Permission denied: ");
                push_str(&mut v, s.as_str());
                string_from_chars(v.as_slice())
            },
            NexusError::ContextOverflow { used, limit } => {
                let mut v = chars_of("Context overflow: used ");
                let u = u64_decimal(*used as u64);
                push_all(&mut v, u.as_slice());
                push_str(&mut v, " tokens, limit is ");
                let l = u64_decimal(*limit as u64);
                push_all(&mut v, l.as_slice());
                string_from_chars(v.as_slice())
            },
            NexusError::MaxIterations(n) => {
                let mut v = chars_of("Max iterations reached: ");
                let d = u64_decimal(*n as u64);
                push_all(&mut v, d.as_slice());
                string_from_chars(v.as_slice())
            },
            NexusError::Cancelled => "Cancelled by user".to_owned(),
            NexusError::Other(s) => s.clone(),
        }
    }
}

} // verus!
