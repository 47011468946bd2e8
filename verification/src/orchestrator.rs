//! Agent orchestrator: the agentic loop as a state machine.
//!
//! One user turn receives the user's message, calls the LLM provider, hands
//! each tool call through the permission gate, feeds the results back, and
//! repeats until the model produces a final text response. Everything that
//! waits on the outside world (the provider, its stream, the file system
//! probe, the user's approval, the tool itself) is an [`Action`] for the
//! caller to perform; the caller hands the outcome back through the method
//! that the action names, and calls [`Orchestrator::advance`] on
//! [`Action::Continue`].
use vstd::prelude::*;

use crate::context::{cap, conversation_tokens, first_lines, token_estimate, ContextManager};
use crate::paths::path_join;
use crate::json::{compact_text, json_compact, JsonValue, JsonView};
use crate::permission::{decide, DecisionView, PathProbe, PermissionGate};
use crate::session::{tool_call_view, tool_result_view, user_message_view, SessionLogger};
use crate::text::{chars_of, concat_str, push_str, string_from_chars};
use crate::string_map::StringMap;
use crate::tool::ToolRegistry;
use crate::types::{
    chunk_view, content_views, message_views, result_view, schema_view, schema_views, AssistantContent,
    ChatRequest, ChatResponseChunk, ChunkView, ContentView, MessageView, NexusError, OutputEvent,
    PermissionDecision, ProviderError, ResultView, SchemaView, TokenUsage, ToolContext, ToolResult, sat_sum,
};

verus! {

/// Configuration for the orchestrator.
#[derive(Clone, Copy, Debug)]
pub struct OrchestratorConfig {
    pub max_iterations: usize,
    pub dry_run: bool,
}

impl Default for OrchestratorConfig {
    fn default() -> (r: Self)
        ensures
            r.max_iterations == 20,
            !r.dry_run,
    {
        OrchestratorConfig { max_iterations: 20, dry_run: false }
    }
}

/// Where the orchestrator stands in a turn.
#[derive(Clone, Copy, Debug, PartialEq, Eq, Structural)]
pub enum Phase {
    /// No turn is running.
    Idle,
    /// At the top of the loop: about to check the limits and call the provider.
    Top,
    /// Waiting for the provider to open its response stream.
    AwaitProvider,
    /// Reading the response stream.
    Streaming,
    /// The stream has ended; the response is to be taken in.
    EndOfStream,
    /// Handing out the next tool call of the response.
    Dispatch,
    /// Waiting for the file-system probe of the current tool call.
    AwaitPermission,
    /// Waiting for the user to approve the current tool call.
    AwaitApproval,
    /// Waiting for the current tool call to be executed.
    AwaitExecution,
    /// The result of the current tool call is to be recorded.
    Record,
}

/// A tool call of the current response.
#[derive(Debug)]
struct PendingCall {
    id: String,
    name: String,
    input: JsonValue,
}

/// A tool call of the current response: id, tool name and input.
pub struct CallView {
    pub id: Seq<char>,
    pub name: Seq<char>,
    pub input: JsonView,
}

spec fn call_view(c: PendingCall) -> CallView {
    CallView { id: c.id@, name: c.name@, input: c.input@ }
}

spec fn call_views(s: Seq<PendingCall>) -> Seq<CallView> {
    s.map_values(|c: PendingCall| call_view(c))
}

/// What the caller is to do next.
#[derive(Debug)]
pub enum Action {
    /// Send `request` to the provider; answer with
    /// [`Orchestrator::stream_opened`] or [`Orchestrator::provider_failed`].
    CallProvider { request: ChatRequest },
    /// Read the next chunk of the response stream; answer with
    /// [`Orchestrator::receive_chunk`] or, at its end, [`Orchestrator::stream_ended`].
    ReadStream,
    /// Probe the file system for the call of `tool_name` with `args` and
    /// answer with [`Orchestrator::permission_probe`].
    CheckPermission { tool_name: String, args: JsonValue },
    /// Ask the user to approve the call; answer with [`Orchestrator::approval`].
    AskApproval { tool_name: String, args: JsonValue, message: String },
    /// Execute the tool; answer with [`Orchestrator::tool_finished`].
    Execute { tool_name: String, args: JsonValue },
    /// Call [`Orchestrator::advance`].
    Continue,
    /// The turn is over; its events are ready for [`Orchestrator::take_events`].
    Finished,
}

/// An action, with texts as character sequences and values by their views.
pub enum ActionView {
    CallProvider {
        system: Seq<char>,
        messages: Seq<MessageView>,
        tools: Seq<SchemaView>,
        model: Seq<char>,
        max_tokens: u32,
    },
    ReadStream,
    CheckPermission { tool_name: Seq<char>, args: JsonView },
    AskApproval { tool_name: Seq<char>, args: JsonView, message: Seq<char> },
    Execute { tool_name: Seq<char>, args: JsonView },
    Continue,
    Finished,
}

pub open spec fn action_view(a: Action) -> ActionView {
    match a {
        Action::CallProvider { request } => ActionView::CallProvider {
            system: request.system@,
            messages: message_views(request.messages@),
            tools: schema_views(request.tools@),
            model: request.model@,
            max_tokens: request.max_tokens,
        },
        Action::ReadStream => ActionView::ReadStream,
        Action::CheckPermission { tool_name, args } => ActionView::CheckPermission {
            tool_name: tool_name@,
            args: args@,
        },
        Action::AskApproval { tool_name, args, message } => ActionView::AskApproval {
            tool_name: tool_name@,
            args: args@,
            message: message@,
        },
        Action::Execute { tool_name, args } => ActionView::Execute { tool_name: tool_name@, args: args@ },
        Action::Continue => ActionView::Continue,
        Action::Finished => ActionView::Finished,
    }
}

/// An output event, with texts as character sequences and values by their views.
pub enum EventView {
    Token(Seq<char>),
    ToolCall(Seq<char>, JsonView),
    ToolResult(Seq<char>, ResultView),
    ApprovalRequest(Seq<char>, JsonView, Seq<char>),
    Status(Seq<char>),
    Error(NexusError),
    Done,
}

pub open spec fn event_view(e: OutputEvent) -> EventView {
    match e {
        OutputEvent::Token { text } => EventView::Token(text@),
        OutputEvent::ToolCall { tool_name, args } => EventView::ToolCall(tool_name@, args@),
        OutputEvent::ToolResult { tool_name, result } => EventView::ToolResult(tool_name@, result_view(result)),
        OutputEvent::ApprovalRequest { tool_name, args, message } => EventView::ApprovalRequest(
            tool_name@,
            args@,
            message@,
        ),
        OutputEvent::Status { message } => EventView::Status(message@),
        OutputEvent::Error { error } => EventView::Error(error),
        OutputEvent::Done => EventView::Done,
    }
}

pub open spec fn event_views(s: Seq<OutputEvent>) -> Seq<EventView> {
    s.map_values(|e: OutputEvent| event_view(e))
}

/// Whether `e` ends a turn.
pub open spec fn is_final_event(e: EventView) -> bool {
    e is Done || e is Error
}

/// The blocks of the assistant message for a response with text `text` and
/// tool calls `calls`.
pub open spec fn response_contents(text: Seq<char>, calls: Seq<CallView>) -> Seq<ContentView> {
    (if text.len() == 0 {
        Seq::<ContentView>::empty()
    } else {
        seq![ContentView::Text(text)]
    }) + calls.map_values(|c: CallView| ContentView::ToolUse(c.id, c.name, c.input))
}

/// The tokens left for the model's output once the assembled context is in.
pub open spec fn output_allowance(cm: ContextManager) -> usize {
    let used = cap(token_estimate(cm.assembled_system()) + conversation_tokens(cm.history()));
    if used <= cm.window() {
        (cm.window() - used) as usize
    } else {
        0usize
    }
}

/// The output limit of a request: the allowance, at most 8192.
pub open spec fn request_limit(allowance: usize) -> u32 {
    if allowance < 8192 {
        allowance as u32
    } else {
        8192u32
    }
}

/// The output of a call that dry-run mode does not execute.
pub open spec fn dry_run_text(name: Seq<char>, input: JsonView) -> Seq<char> {
    "[dry-run] Would execute "@ + name + " with "@ + json_compact(input)
}

/// A successful result with `output` and no metadata.
pub open spec fn ok_view(output: Seq<char>) -> ResultView {
    ResultView { success: true, output, metadata: Seq::empty() }
}

/// A failed result with `output` and no metadata.
pub open spec fn err_view(output: Seq<char>) -> ResultView {
    ResultView { success: false, output, metadata: Seq::empty() }
}

/// Whether `history` is `base`, then the assistant message for a response
/// with text `text` and tool calls `calls`, then one tool message for each of
/// the first `n` calls, in order, under the call's id.
pub open spec fn answered_so_far(
    history: Seq<MessageView>,
    base: Seq<MessageView>,
    text: Seq<char>,
    calls: Seq<CallView>,
    n: nat,
) -> bool {
    &&& n <= calls.len()
    &&& history.len() == base.len() + 1 + n
    &&& history.subrange(0, base.len() as int) == base
    &&& history[base.len() as int] == MessageView::Assistant(response_contents(text, calls))
    &&& forall|k: int|
        0 <= k < n ==> (#[trigger] history[base.len() + 1 + k] matches MessageView::Tool(id, _) && id == calls[k].id)
}

/// Tool names by call id, as character sequences.
pub open spec fn names_view(m: Map<Seq<char>, String>) -> Map<Seq<char>, Seq<char>> {
    m.map_values(|v: String| v@)
}

/// The tool name of a finished call with id `id`: the name its start gave,
/// else the name of the latest start.
pub open spec fn call_name(started: Map<Seq<char>, Seq<char>>, current: Seq<char>, id: Seq<char>) -> Seq<char> {
    if started.contains_key(id) {
        started[id]
    } else {
        current
    }
}

/// The agent orchestrator that runs the agentic loop.
pub struct Orchestrator<T> {
    tool_registry: ToolRegistry<T>,
    permission_gate: PermissionGate,
    context_manager: ContextManager,
    session_logger: SessionLogger,
    config: OrchestratorConfig,
    tool_context: ToolContext,
    cancelled: bool,
    phase: Phase,
    iterations: usize,
    events: Vec<OutputEvent>,
    text_buffer: String,
    tool_calls: Vec<PendingCall>,
    current_tool_name: String,
    started_names: StringMap<String>,
    current_tool_input: String,
    cursor: usize,
    pending: Option<ToolResult>,
    round_base: Ghost<Seq<MessageView>>,
}

impl<T> Orchestrator<T> {
    pub closed spec fn registry(&self) -> ToolRegistry<T> {
        self.tool_registry
    }

    pub closed spec fn gate(&self) -> PermissionGate {
        self.permission_gate
    }

    pub closed spec fn context(&self) -> ContextManager {
        self.context_manager
    }

    pub closed spec fn logger(&self) -> SessionLogger {
        self.session_logger
    }

    pub closed spec fn config(&self) -> OrchestratorConfig {
        self.config
    }

    pub closed spec fn tool_context(&self) -> ToolContext {
        self.tool_context
    }

    /// Whether a cancellation was requested.
    pub closed spec fn cancelled(&self) -> bool {
        self.cancelled
    }

    pub closed spec fn phase(&self) -> Phase {
        self.phase
    }

    /// The number of completed rounds of tool calls in this turn.
    pub closed spec fn iterations(&self) -> nat {
        self.iterations as nat
    }

    /// The events of this turn not yet taken.
    pub closed spec fn events(&self) -> Seq<EventView> {
        event_views(self.events@)
    }

    /// The text of the current response so far.
    pub closed spec fn text(&self) -> Seq<char> {
        self.text_buffer@
    }

    /// The tool calls of the current response so far.
    pub closed spec fn calls(&self) -> Seq<CallView> {
        call_views(self.tool_calls@)
    }

    /// The name of the tool call being streamed.
    pub closed spec fn current_name(&self) -> Seq<char> {
        self.current_tool_name@
    }

    /// The tool names of the calls started in the current response, by id.
    pub closed spec fn started(&self) -> Map<Seq<char>, Seq<char>> {
        names_view(self.started_names@)
    }

    /// The input text of the tool call being streamed.
    pub closed spec fn current_input(&self) -> Seq<char> {
        self.current_tool_input@
    }

    /// The index of the tool call being handled.
    pub closed spec fn cursor(&self) -> nat {
        self.cursor as nat
    }

    /// The result waiting to be recorded.
    pub closed spec fn pending(&self) -> Option<ResultView> {
        match self.pending {
            Some(r) => Some(result_view(r)),
            None => None,
        }
    }

    /// The orchestrator's invariant: the round count never passes the limit,
    /// and a call is being handled only while one remains.
    pub closed spec fn wf(&self) -> bool {
        &&& self.iterations <= self.config.max_iterations
        &&& !(self.phase is Idle || self.phase is Top) ==> self.iterations < self.config.max_iterations
        &&& self.cursor <= self.tool_calls@.len()
        &&& (self.phase is AwaitPermission || self.phase is AwaitApproval || self.phase is AwaitExecution
            || self.phase is Record) ==> self.cursor < self.tool_calls@.len()
        &&& (self.phase is AwaitPermission || self.phase is AwaitApproval || self.phase is AwaitExecution)
            ==> self.tool_registry.names().contains(self.tool_calls@[self.cursor as int].name@)
        &&& (self.phase is Record <==> self.pending is Some)
        &&& (self.phase is AwaitProvider || self.phase is Streaming || self.phase is EndOfStream)
            ==> self.context_manager.history() == self.round_base@
        &&& (self.phase is Dispatch || self.phase is AwaitPermission || self.phase is AwaitApproval
            || self.phase is AwaitExecution || self.phase is Record) ==> answered_so_far(
            self.context_manager.history(),
            self.round_base@,
            self.text(),
            self.calls(),
            self.cursor as nat,
        )
    }

    /// The history at the start of the current round, before the model's
    /// response.
    pub closed spec fn round_start(&self) -> Seq<MessageView> {
        self.round_base@
    }

    /// When a round ends, the history holds what it held at the round's
    /// start, then the model's response, then exactly one tool message for
    /// each tool call of the response, in order, under the call's id.
    pub proof fn law_round_answers_every_call(&self)
        requires
            self.wf(),
            self.phase() is Dispatch,
            self.cursor() == self.calls().len(),
        ensures
            answered_so_far(self.context().history(), self.round_start(), self.text(), self.calls(), self.calls().len()),
    {
    }

    /// Whether `self` and `other` have the same tools, gate, configuration and
    /// tool context.
    pub open spec fn same_setup(&self, other: &Self) -> bool {
        &&& self.registry() == other.registry()
        &&& self.gate() == other.gate()
        &&& self.config() == other.config()
        &&& self.tool_context() == other.tool_context()
    }

    /// Whether `self` and `other` hold the same response buffers.
    pub open spec fn same_buffers(&self, other: &Self) -> bool {
        &&& self.text() == other.text()
        &&& self.calls() == other.calls()
        &&& self.current_name() == other.current_name()
        &&& self.started() == other.started()
        &&& self.current_input() == other.current_input()
        &&& self.cursor() == other.cursor()
        &&& self.pending() == other.pending()
    }

    /// Whether the loggers of `self` and `other` write for the same session
    /// to the same file.
    pub open spec fn same_log_target(&self, other: &Self) -> bool {
        &&& self.logger().id() == other.logger().id()
        &&& self.logger().path() == other.logger().path()
    }

    /// Whether the context of `self` is that of `other` with `m` added to the
    /// history.
    pub open spec fn added_message(&self, other: &Self, m: MessageView) -> bool {
        &&& self.context().history() == other.context().history().push(m)
        &&& self.context().same_setting(&other.context())
        &&& self.context().token_usage() == other.context().token_usage()
    }

    /// One step from the top of the loop.
    pub open spec fn top_step(old: &Self, new: &Self, a: ActionView) -> bool {
        &&& new.context() == old.context()
        &&& new.logger() == old.logger()
        &&& new.iterations() == old.iterations()
        &&& new.same_buffers(old)
        &&& if old.iterations() >= old.config().max_iterations {
            &&& new.events() == old.events().push(
                EventView::Error(NexusError::MaxIterations(old.config().max_iterations)),
            )
            &&& new.phase() is Idle
            &&& a is Finished
        } else if old.cancelled() {
            &&& new.events() == old.events().push(EventView::Error(NexusError::Cancelled))
            &&& new.phase() is Idle
            &&& a is Finished
        } else {
            &&& new.events() == old.events().push(EventView::Status("Thinking..."@))
            &&& new.phase() is AwaitProvider
            &&& a == ActionView::CallProvider {
                system: old.context().assembled_system(),
                messages: old.context().history(),
                tools: old.registry().schemas(),
                model: Seq::empty(),
                max_tokens: request_limit(output_allowance(old.context())),
            }
        }
    }

    /// One step at the end of the stream.
    pub open spec fn close_step(old: &Self, new: &Self, a: ActionView) -> bool {
        &&& new.logger() == old.logger()
        &&& new.iterations() == old.iterations()
        &&& new.text() == old.text()
        &&& new.calls() == old.calls()
        &&& new.pending() == old.pending()
        &&& if old.calls().len() == 0 {
            &&& if old.text().len() == 0 {
                new.context() == old.context()
            } else {
                new.added_message(old, MessageView::Assistant(seq![ContentView::Text(old.text())]))
            }
            &&& new.events() == old.events().push(EventView::Done)
            &&& new.phase() is Idle
            &&& a is Finished
        } else {
            &&& new.added_message(old, MessageView::Assistant(response_contents(old.text(), old.calls())))
            &&& new.events() == old.events()
            &&& new.cursor() == 0
            &&& new.phase() is Dispatch
            &&& a is Continue
        }
    }

    /// One step of handing out tool calls.
    pub open spec fn dispatch_step(old: &Self, new: &Self, a: ActionView) -> bool {
        &&& new.context() == old.context()
        &&& new.logger() == old.logger()
        &&& new.text() == old.text()
        &&& new.calls() == old.calls()
        &&& new.cursor() == old.cursor()
        &&& a is Continue || a is CheckPermission
        &&& if old.cursor() == old.calls().len() {
            &&& new.iterations() == old.iterations() + 1
            &&& new.events() == old.events()
            &&& new.pending() is None
            &&& new.phase() is Top
        } else {
            let c = old.calls()[old.cursor() as int];
            &&& new.iterations() == old.iterations()
            &&& if !old.registry().names().contains(c.name) {
                &&& new.events() == old.events()
                &&& new.pending() == Some(err_view("Unknown tool: "@ + c.name))
                &&& new.phase() is Record
            } else {
                &&& new.events() == old.events().push(EventView::ToolCall(c.name, c.input))
                &&& new.pending() is None
                &&& new.phase() is AwaitPermission
                &&& a == ActionView::CheckPermission { tool_name: c.name, args: c.input }
            }
        }
    }

    /// One step of recording the result of the current tool call.
    pub open spec fn record_step(old: &Self, new: &Self, a: ActionView) -> bool {
        let c = old.calls()[old.cursor() as int];
        let r = old.pending()->0;
        &&& exists|ts: Seq<char>|
            new.logger().logged() == old.logger().logged().push(
                #[trigger] tool_result_view(ts, old.logger().id(), c.name, r.success, r.output),
            )
        &&& new.same_log_target(old)
        &&& new.events() == old.events().push(EventView::ToolResult(c.name, r))
        &&& new.added_message(old, MessageView::Tool(c.id, r.output))
        &&& new.iterations() == old.iterations()
        &&& new.text() == old.text()
        &&& new.calls() == old.calls()
        &&& new.cursor() == old.cursor() + 1
        &&& new.pending() is None
        &&& new.phase() is Dispatch
        &&& a is Continue
    }

    /// The next step once a call may go ahead: a dry run records what would
    /// have run, otherwise the tool is executed.
    pub open spec fn go_ahead(old: &Self, new: &Self, a: ActionView) -> bool {
        let c = old.calls()[old.cursor() as int];
        if old.config().dry_run {
            &&& new.pending() == Some(ok_view(dry_run_text(c.name, c.input)))
            &&& new.phase() is Record
            &&& a is Continue
        } else {
            &&& new.pending() is None
            &&& new.phase() is AwaitExecution
            &&& a == ActionView::Execute { tool_name: c.name, args: c.input }
        }
    }

    /// One step on the file-system probe of the current call: the permission gate
    /// decides, the decision is logged, and the call goes ahead, is refused, or
    /// waits for the user.
    pub open spec fn permission_step(old: &Self, new: &Self, probe: PathProbe, a: ActionView) -> bool {
        let c = old.calls()[old.cursor() as int];
        let d = decide(old.gate().policy(), old.gate().approved(), c.name, c.input, probe);
        &&& exists|ts: Seq<char>|
            new.logger().logged() == old.logger().logged().push(
                #[trigger] tool_call_view(ts, old.logger().id(), c.name, c.input, d),
            )
        &&& new.same_log_target(old)
        &&& match d {
            DecisionView::Allow => {
                &&& new.events() == old.events()
                &&& Self::go_ahead(old, new, a)
            },
            DecisionView::Deny(reason) => {
                &&& new.events() == old.events()
                &&& new.pending() == Some(err_view("Permission denied: "@ + reason))
                &&& new.phase() is Record
                &&& a is Continue
            },
            DecisionView::Ask(message) => {
                &&& new.events() == old.events().push(EventView::ApprovalRequest(c.name, c.input, message))
                &&& new.pending() is None
                &&& new.phase() is AwaitApproval
                &&& a == ActionView::AskApproval { tool_name: c.name, args: c.input, message }
            },
        }
    }

    /// One step on the user's answer to an approval request.
    pub open spec fn approval_step(old: &Self, new: &Self, approved: bool, a: ActionView) -> bool {
        if approved {
            Self::go_ahead(old, new, a)
        } else {
            &&& new.pending() == Some(err_view("Permission denied by user"@))
            &&& new.phase() is Record
            &&& a is Continue
        }
    }

    /// In every state the orchestrator reaches, the rounds of tool calls of
    /// the current turn do not pass the configured limit, and while a round
    /// is under way there is room for it.
    pub proof fn law_rounds_within_limit(&self)
        requires
            self.wf(),
        ensures
            self.iterations() <= self.config().max_iterations,
            !(self.phase() is Idle || self.phase() is Top) ==> self.iterations() < self.config().max_iterations,
    {
    }

    /// Once a turn is cancelled, the next return to the top of the loop ends
    /// it with a cancellation error and calls the provider no more (unless
    /// the round limit ends it first).
    pub proof fn law_cancelled_turn_stops(old: &Self, new: &Self, a: ActionView)
        requires
            Self::top_step(old, new, a),
            old.cancelled(),
            old.iterations() < old.config().max_iterations,
        ensures
            a is Finished,
            new.phase() is Idle,
            new.events().last() == EventView::Error(NexusError::Cancelled),
            new.context() == old.context(),
    {
    }

    /// A tool call is handed out for execution after the file-system probe
    /// only when the permission gate allows it and the orchestrator is not in dry-run
    /// mode.
    pub proof fn law_probe_executes_only_allowed(old: &Self, new: &Self, probe: PathProbe, a: ActionView)
        requires
            Self::permission_step(old, new, probe, a),
            a is Execute,
        ensures
            decide(
                old.gate().policy(),
                old.gate().approved(),
                old.calls()[old.cursor() as int].name,
                old.calls()[old.cursor() as int].input,
                probe,
            ) is Allow,
            !old.config().dry_run,
    {
    }

    /// After an approval request, a tool call is handed out for execution
    /// only when the user approved it and the orchestrator is not in dry-run
    /// mode.
    pub proof fn law_approval_executes_only_approved(old: &Self, new: &Self, approved: bool, a: ActionView)
        requires
            Self::approval_step(old, new, approved, a),
            a is Execute,
        ensures
            approved,
            !old.config().dry_run,
    {
    }

    /// An orchestrator for the given parts, with no turn running.
    pub fn new(
        tool_registry: ToolRegistry<T>,
        permission_gate: PermissionGate,
        context_manager: ContextManager,
        session_logger: SessionLogger,
        config: OrchestratorConfig,
        tool_context: ToolContext,
    ) -> (o: Self)
        ensures
            o.wf(),
            o.registry() == tool_registry,
            o.gate() == permission_gate,
            o.context() == context_manager,
            o.logger() == session_logger,
            o.config() == config,
            o.tool_context() == tool_context,
            !o.cancelled(),
            o.phase() is Idle,
            o.iterations() == 0,
            o.events().len() == 0,
    {
        let o = Orchestrator {
            tool_registry,
            permission_gate,
            context_manager,
            session_logger,
            config,
            tool_context,
            cancelled: false,
            phase: Phase::Idle,
            iterations: 0,
            events: Vec::new(),
            text_buffer: String::new(),
            tool_calls: Vec::new(),
            current_tool_name: String::new(),
            started_names: StringMap::new(),
            current_tool_input: String::new(),
            cursor: 0,
            pending: None,
            round_base: Ghost(Seq::empty()),
        };
        assert(o.events() =~= Seq::<EventView>::empty());
        o
    }

    fn push_event(&mut self, e: OutputEvent)
        ensures
            final(self).events() == old(self).events().push(event_view(e)),
            *final(self) == (Self { events: final(self).events, ..*old(self) }),
    {
        let ghost before = event_views(self.events@);
        self.events.push(e);
        assert(event_views(self.events@) =~= before.push(event_view(e)));
    }

    /// Start a turn with the user's message.
    pub fn begin_turn(&mut self, user_message: &str) -> (a: Action)
        requires
            old(self).wf(),
            old(self).phase() is Idle,
        ensures
            final(self).wf(),
            final(self).same_setup(&*old(self)),
            final(self).added_message(&*old(self), MessageView::User(user_message@)),
            exists|ts: Seq<char>|
                final(self).logger().logged() == old(self).logger().logged().push(
                    #[trigger] user_message_view(ts, old(self).logger().id(), user_message@),
                ),
            final(self).same_log_target(&*old(self)),
            !final(self).cancelled(),
            final(self).events().len() == 0,
            final(self).iterations() == 0,
            final(self).phase() is Top,
            action_view(a) is Continue,
    {
        self.cancelled = false;
        self.context_manager.add_user_message(user_message);
        let ghost log0 = self.session_logger;
        self.session_logger.log_user_message(user_message);
        proof {
            let ts = choose|ts: Seq<char>|
                self.session_logger.logged() == log0.logged().push(#[trigger] user_message_view(ts, log0.id(), user_message@));
            assert(self.logger().logged() == old(self).logger().logged().push(user_message_view(ts, old(self).logger().id(), user_message@)));
        }
        self.events = Vec::new();
        self.iterations = 0;
        self.phase = Phase::Top;
        assert(self.events() =~= Seq::<EventView>::empty());
        Action::Continue
    }

    fn top_of_loop(&mut self) -> (a: Action)
        requires
            old(self).wf(),
            old(self).phase() is Top,
        ensures
            final(self).wf(),
            final(self).same_setup(&*old(self)),
            final(self).cancelled() == old(self).cancelled(),
            Self::top_step(&*old(self), &*final(self), action_view(a)),
    {
        if self.iterations >= self.config.max_iterations {
            let n = self.config.max_iterations;
            self.push_event(OutputEvent::Error { error: NexusError::MaxIterations(n) });
            self.phase = Phase::Idle;
            return Action::Finished;
        }
        if self.cancelled {
            self.push_event(OutputEvent::Error { error: NexusError::Cancelled });
            self.phase = Phase::Idle;
            return Action::Finished;
        }
        let assembled = self.context_manager.assemble();
        let limit: u32 = if assembled.budget.remaining_for_output < 8192 {
            assembled.budget.remaining_for_output as u32
        } else {
            8192
        };
        let request = ChatRequest {
            system: assembled.system,
            messages: assembled.messages,
            tools: self.tool_registry.all_schemas(),
            model: String::new(),
            max_tokens: limit,
        };
        self.push_event(OutputEvent::Status { message: "Thinking...".to_owned() });
        self.round_base = Ghost(self.context_manager.history());
        self.phase = Phase::AwaitProvider;
        Action::CallProvider { request }
    }

    fn close_stream(&mut self) -> (a: Action)
        requires
            old(self).wf(),
            old(self).phase() is EndOfStream,
        ensures
            final(self).wf(),
            final(self).same_setup(&*old(self)),
            final(self).cancelled() == old(self).cancelled(),
            Self::close_step(&*old(self), &*final(self), action_view(a)),
    {
        if self.tool_calls.len() == 0 {
            if !self.text_buffer.as_str().is_empty() {
                let mut content: Vec<AssistantContent> = Vec::new();
                content.push(AssistantContent::Text { text: self.text_buffer.clone() });
                assert(content_views(content@) =~= seq![ContentView::Text(self.text())]);
                self.context_manager.add_assistant_message(content);
            }
            self.push_event(OutputEvent::Done);
            self.phase = Phase::Idle;
            return Action::Finished;
        }
        let mut content: Vec<AssistantContent> = Vec::new();
        let ghost lead = if self.text_buffer@.len() == 0 {
            Seq::<ContentView>::empty()
        } else {
            seq![ContentView::Text(self.text_buffer@)]
        };
        if !self.text_buffer.as_str().is_empty() {
            content.push(AssistantContent::Text { text: self.text_buffer.clone() });
        }
        assert(content_views(content@) =~= lead);
        let ghost cs = call_views(self.tool_calls@);
        let mut i: usize = 0;
        while i < self.tool_calls.len()
            invariant
                i <= self.tool_calls@.len(),
                cs == call_views(self.tool_calls@),
                content_views(content@) == lead + cs.subrange(0, i as int).map_values(
                    |c: CallView| ContentView::ToolUse(c.id, c.name, c.input),
                ),
            decreases self.tool_calls@.len() - i,
        {
            let c = &self.tool_calls[i];
            let block = AssistantContent::ToolUse {
                id: c.id.clone(),
                name: c.name.clone(),
                input: c.input.copy(),
            };
            let ghost before = content_views(content@);
            content.push(block);
            assert(content_views(content@) =~= before.push(content_views(content@).last()));
            assert(cs.subrange(0, i + 1).map_values(
                |c: CallView| ContentView::ToolUse(c.id, c.name, c.input),
            ) =~= cs.subrange(0, i as int).map_values(
                |c: CallView| ContentView::ToolUse(c.id, c.name, c.input),
            ).push(ContentView::ToolUse(cs[i as int].id, cs[i as int].name, cs[i as int].input)));
            i = i + 1;
        }
        assert(cs.subrange(0, cs.len() as int) =~= cs);
        assert(content_views(content@) =~= response_contents(self.text(), self.calls()));
        self.context_manager.add_assistant_message(content);
        self.cursor = 0;
        self.phase = Phase::Dispatch;
        assert(self.context_manager.history().subrange(0, self.round_base@.len() as int) =~= self.round_base@);
        Action::Continue
    }

    fn dispatch(&mut self) -> (a: Action)
        requires
            old(self).wf(),
            old(self).phase() is Dispatch,
        ensures
            final(self).wf(),
            final(self).same_setup(&*old(self)),
            final(self).cancelled() == old(self).cancelled(),
            Self::dispatch_step(&*old(self), &*final(self), action_view(a)),
    {
        if self.cursor == self.tool_calls.len() {
            self.iterations = self.iterations + 1;
            self.phase = Phase::Top;
            return Action::Continue;
        }
        let i = self.cursor;
        match self.tool_registry.get_schema(self.tool_calls[i].name.as_str()) {
            Some(sch) => {
                proof {
                    let k = choose|k: int|
                        0 <= k < self.registry().schemas().len() && self.registry().schemas()[k] == schema_view(*sch);
                    assert(self.registry().names()[k] == self.tool_calls@[i as int].name@);
                    assert(self.tool_registry.names().contains(self.tool_calls@[i as int].name@));
                    assert(self.calls()[i as int].name == self.tool_calls@[i as int].name@);
                }
            },
            None => {
                assert(self.calls()[i as int].name == self.tool_calls@[i as int].name@);
                let mut v = chars_of("Unknown tool: ");
                push_str(&mut v, self.tool_calls[i].name.as_str());
                let msg = string_from_chars(v.as_slice());
                self.pending = Some(ToolResult::err(msg.as_str()));
                self.phase = Phase::Record;
                return Action::Continue;
            },
        }
        let name = self.tool_calls[i].name.clone();
        let args = self.tool_calls[i].input.copy();
        let ev_name = self.tool_calls[i].name.clone();
        let ev_args = self.tool_calls[i].input.copy();
        self.push_event(OutputEvent::ToolCall { tool_name: ev_name, args: ev_args });
        self.phase = Phase::AwaitPermission;
        Action::CheckPermission { tool_name: name, args }
    }

    fn record(&mut self) -> (a: Action)
        requires
            old(self).wf(),
            old(self).phase() is Record,
        ensures
            final(self).wf(),
            final(self).same_setup(&*old(self)),
            final(self).cancelled() == old(self).cancelled(),
            Self::record_step(&*old(self), &*final(self), action_view(a)),
    {
        assert(self.cursor < self.tool_calls@.len());
        let n = self.tool_calls.len();
        let mut p: Option<ToolResult> = None;
        std::mem::swap(&mut p, &mut self.pending);
        let result = match p {
            Some(r) => r,
            None => {
                assert(false);
                ToolResult::err("")
            },
        };
        let i = self.cursor;
        let name = self.tool_calls[i].name.clone();
        let id = self.tool_calls[i].id.clone();
        self.session_logger.log_tool_result(name.as_str(), &result);
        let ev = result.copy();
        self.push_event(OutputEvent::ToolResult { tool_name: name, result: ev });
        let ghost h0 = self.context_manager.history();
        self.context_manager.add_tool_result(id.as_str(), &result);
        self.cursor = i + 1;
        self.phase = Phase::Dispatch;
        proof {
            let h1 = self.context_manager.history();
            let b = self.round_base@;
            assert(h1.subrange(0, b.len() as int) =~= h0.subrange(0, b.len() as int));
            assert(h1[b.len() as int] == h0[b.len() as int]);
            assert forall|k: int| 0 <= k < i + 1 implies (#[trigger] h1[b.len() + 1 + k] matches MessageView::Tool(id, _)
                && id == self.calls()[k].id) by {
                if k < i {
                    assert(h1[b.len() + 1 + k] == h0[b.len() + 1 + k]);
                }
            }
        }
        Action::Continue
    }

    /// Take the next internal step; to be called on [`Action::Continue`].
    pub fn advance(&mut self) -> (a: Action)
        requires
            old(self).wf(),
            old(self).phase() is Top || old(self).phase() is EndOfStream || old(self).phase() is Dispatch
                || old(self).phase() is Record,
        ensures
            final(self).wf(),
            final(self).same_setup(&*old(self)),
            final(self).cancelled() == old(self).cancelled(),
            old(self).phase() is Top ==> Self::top_step(&*old(self), &*final(self), action_view(a)),
            old(self).phase() is EndOfStream ==> Self::close_step(&*old(self), &*final(self), action_view(a)),
            old(self).phase() is Dispatch ==> Self::dispatch_step(&*old(self), &*final(self), action_view(a)),
            old(self).phase() is Record ==> Self::record_step(&*old(self), &*final(self), action_view(a)),
            !(action_view(a) is Execute),
            action_view(a) is Finished ==> final(self).phase() is Idle && final(self).events().len() > 0
                && is_final_event(final(self).events().last()),
    {
        match self.phase {
            Phase::Top => self.top_of_loop(),
            Phase::EndOfStream => self.close_stream(),
            Phase::Dispatch => self.dispatch(),
            _ => self.record(),
        }
    }

    /// The provider has opened its response stream.
    pub fn stream_opened(&mut self) -> (a: Action)
        requires
            old(self).wf(),
            old(self).phase() is AwaitProvider,
        ensures
            final(self).wf(),
            final(self).same_setup(&*old(self)),
            final(self).cancelled() == old(self).cancelled(),
            final(self).context() == old(self).context(),
            final(self).logger() == old(self).logger(),
            final(self).iterations() == old(self).iterations(),
            final(self).events() == old(self).events(),
            final(self).text().len() == 0,
            final(self).calls().len() == 0,
            final(self).current_name().len() == 0,
            final(self).started() == Map::<Seq<char>, Seq<char>>::empty(),
            final(self).current_input().len() == 0,
            final(self).cursor() == 0,
            final(self).pending() is None,
            final(self).phase() is Streaming,
            action_view(a) is ReadStream,
    {
        self.text_buffer = String::new();
        self.tool_calls = Vec::new();
        self.current_tool_name = String::new();
        self.started_names = StringMap::new();
        self.current_tool_input = String::new();
        self.cursor = 0;
        self.phase = Phase::Streaming;
        assert(self.calls() =~= Seq::<CallView>::empty());
        assert(self.started() =~= Map::<Seq<char>, Seq<char>>::empty());
        Action::ReadStream
    }

    /// The provider refused the request: the turn ends with the error.
    pub fn provider_failed(&mut self, error: ProviderError) -> (a: Action)
        requires
            old(self).wf(),
            old(self).phase() is AwaitProvider,
        ensures
            final(self).wf(),
            final(self).same_setup(&*old(self)),
            final(self).cancelled() == old(self).cancelled(),
            final(self).context() == old(self).context(),
            final(self).logger() == old(self).logger(),
            final(self).iterations() == old(self).iterations(),
            final(self).same_buffers(&*old(self)),
            final(self).events() == old(self).events().push(EventView::Error(NexusError::Provider(error))),
            final(self).phase() is Idle,
            action_view(a) is Finished,
    {
        self.push_event(OutputEvent::Error { error: NexusError::Provider(error) });
        self.phase = Phase::Idle;
        Action::Finished
    }

    /// The next chunk of the response stream.
    pub fn receive_chunk(&mut self, chunk: ChatResponseChunk) -> (a: Action)
        requires
            old(self).wf(),
            old(self).phase() is Streaming,
        ensures
            final(self).wf(),
            final(self).same_setup(&*old(self)),
            final(self).cancelled() == old(self).cancelled(),
            final(self).logger() == old(self).logger(),
            final(self).iterations() == old(self).iterations(),
            final(self).cursor() == old(self).cursor(),
            final(self).pending() == old(self).pending(),
            match chunk_view(chunk) {
                ChunkView::TextDelta(t) => {
                    &&& final(self).text() == old(self).text() + t
                    &&& final(self).events() == old(self).events().push(EventView::Token(t))
                },
                _ => final(self).text() == old(self).text(),
            },
            match chunk_view(chunk) {
                ChunkView::ToolUseStart(id, name) => {
                    &&& final(self).current_name() == name
                    &&& final(self).started() == old(self).started().insert(id, name)
                    &&& final(self).current_input().len() == 0
                },
                ChunkView::ToolUseDelta(_, delta) => {
                    &&& final(self).current_name() == old(self).current_name()
                    &&& final(self).started() == old(self).started()
                    &&& final(self).current_input() == old(self).current_input() + delta
                },
                _ => {
                    &&& final(self).current_name() == old(self).current_name()
                    &&& final(self).started() == old(self).started()
                    &&& final(self).current_input() == old(self).current_input()
                },
            },
            match chunk_view(chunk) {
                ChunkView::ToolUseEnd(id, input) => final(self).calls() == old(self).calls().push(
                    CallView { id, name: call_name(old(self).started(), old(self).current_name(), id), input },
                ),
                _ => final(self).calls() == old(self).calls(),
            },
            match chunk_view(chunk) {
                ChunkView::Usage(i, o) => {
                    &&& final(self).context().token_usage().input_tokens == sat_sum(old(self).context().token_usage().input_tokens as int, i as int)
                    &&& final(self).context().token_usage().output_tokens == sat_sum(old(self).context().token_usage().output_tokens as int, o as int)
                    &&& final(self).context().history() == old(self).context().history()
                    &&& final(self).context().same_setting(&old(self).context())
                },
                _ => final(self).context() == old(self).context(),
            },
            match chunk_view(chunk) {
                ChunkView::Error(e) => final(self).events() == old(self).events().push(
                    EventView::Error(NexusError::Provider(e)),
                ),
                ChunkView::TextDelta(_) => true,
                _ => final(self).events() == old(self).events(),
            },
            match chunk_view(chunk) {
                ChunkView::Done | ChunkView::Error(_) => {
                    &&& final(self).phase() is EndOfStream
                    &&& action_view(a) is Continue
                },
                _ => {
                    &&& final(self).phase() is Streaming
                    &&& action_view(a) is ReadStream
                },
            },
    {
        match chunk {
            ChatResponseChunk::TextDelta { text } => {
                self.text_buffer = concat_str(self.text_buffer.as_str(), text.as_str());
                self.push_event(OutputEvent::Token { text });
                Action::ReadStream
            },
            ChatResponseChunk::ToolUseStart { id, name } => {
                let ghost before = self.started();
                self.started_names.insert(id, name.clone());
                assert(self.started() =~= before.insert(id@, name@));
                self.current_tool_name = name;
                self.current_tool_input = String::new();
                Action::ReadStream
            },
            ChatResponseChunk::ToolUseDelta { id: _, input_delta } => {
                self.current_tool_input = concat_str(self.current_tool_input.as_str(), input_delta.as_str());
                Action::ReadStream
            },
            ChatResponseChunk::ToolUseEnd { id, input } => {
                let ghost before = call_views(self.tool_calls@);
                let name = match self.started_names.get(id.as_str()) {
                    Some(n) => n.clone(),
                    None => self.current_tool_name.clone(),
                };
                let call = PendingCall {
                    id,
                    name,
                    input,
                };
                self.tool_calls.push(call);
                assert(call_views(self.tool_calls@) =~= before.push(call_view(call)));
                Action::ReadStream
            },
            ChatResponseChunk::Usage { input_tokens, output_tokens } => {
                self.context_manager.record_usage(input_tokens, output_tokens);
                Action::ReadStream
            },
            ChatResponseChunk::Done => {
                self.phase = Phase::EndOfStream;
                Action::Continue
            },
            ChatResponseChunk::Error { error } => {
                self.push_event(OutputEvent::Error { error: NexusError::Provider(error) });
                self.phase = Phase::EndOfStream;
                Action::Continue
            },
        }
    }

    /// The response stream has no more chunks.
    pub fn stream_ended(&mut self) -> (a: Action)
        requires
            old(self).wf(),
            old(self).phase() is Streaming,
        ensures
            final(self).wf(),
            final(self).same_setup(&*old(self)),
            final(self).cancelled() == old(self).cancelled(),
            final(self).context() == old(self).context(),
            final(self).logger() == old(self).logger(),
            final(self).iterations() == old(self).iterations(),
            final(self).events() == old(self).events(),
            final(self).same_buffers(&*old(self)),
            final(self).phase() is EndOfStream,
            action_view(a) is Continue,
    {
        self.phase = Phase::EndOfStream;
        Action::Continue
    }

    fn go_ahead_now(&mut self) -> (a: Action)
        requires
            old(self).wf(),
            old(self).phase() is AwaitPermission || old(self).phase() is AwaitApproval,
        ensures
            final(self).wf(),
            final(self).same_setup(&*old(self)),
            final(self).cancelled() == old(self).cancelled(),
            final(self).context() == old(self).context(),
            final(self).logger() == old(self).logger(),
            final(self).iterations() == old(self).iterations(),
            final(self).events() == old(self).events(),
            final(self).text() == old(self).text(),
            final(self).calls() == old(self).calls(),
            final(self).cursor() == old(self).cursor(),
            Self::go_ahead(&*old(self), &*final(self), action_view(a)),
    {
        let i = self.cursor;
        assert(self.calls()[i as int] == call_view(self.tool_calls@[i as int]));
        if self.config.dry_run {
            let mut v = chars_of("[dry-run] Would execute ");
            push_str(&mut v, self.tool_calls[i].name.as_str());
            push_str(&mut v, " with ");
            let text = compact_text(&self.tool_calls[i].input);
            push_str(&mut v, text.as_str());
            let msg = string_from_chars(v.as_slice());
            self.pending = Some(ToolResult::ok(msg.as_str()));
            self.phase = Phase::Record;
            Action::Continue
        } else {
            self.phase = Phase::AwaitExecution;
            Action::Execute { tool_name: self.tool_calls[i].name.clone(), args: self.tool_calls[i].input.copy() }
        }
    }

    /// What the file system says about the current call's path (see
    /// [`PathProbe`]).
    pub fn permission_probe(&mut self, probe: &PathProbe) -> (a: Action)
        requires
            old(self).wf(),
            old(self).phase() is AwaitPermission,
        ensures
            final(self).wf(),
            final(self).same_setup(&*old(self)),
            final(self).cancelled() == old(self).cancelled(),
            final(self).context() == old(self).context(),
            final(self).iterations() == old(self).iterations(),
            final(self).text() == old(self).text(),
            final(self).calls() == old(self).calls(),
            final(self).cursor() == old(self).cursor(),
            Self::permission_step(&*old(self), &*final(self), *probe, action_view(a)),
    {
        let i = self.cursor;
        assert(self.calls()[i as int] == call_view(self.tool_calls@[i as int]));
        let decision = match self.tool_registry.get_schema(self.tool_calls[i].name.as_str()) {
            Some(sch) => self.permission_gate.check(sch, &self.tool_calls[i].input, probe),
            None => {
                assert(false);
                PermissionDecision::Allow
            },
        };
        let ghost log0 = self.session_logger;
        let name = self.tool_calls[i].name.clone();
        self.session_logger.log_tool_call(name.as_str(), &self.tool_calls[i].input, &decision);
        match decision {
            PermissionDecision::Allow => self.go_ahead_now(),
            PermissionDecision::Deny { reason } => {
                let mut v = chars_of("Permission denied: ");
                push_str(&mut v, reason.as_str());
                let msg = string_from_chars(v.as_slice());
                self.pending = Some(ToolResult::err(msg.as_str()));
                self.phase = Phase::Record;
                Action::Continue
            },
            PermissionDecision::Ask { message } => {
                let m2 = message.clone();
                self.push_event(
                    OutputEvent::ApprovalRequest {
                        tool_name: name.clone(),
                        args: self.tool_calls[i].input.copy(),
                        message: m2,
                    },
                );
                self.phase = Phase::AwaitApproval;
                Action::AskApproval { tool_name: name, args: self.tool_calls[i].input.copy(), message }
            },
        }
    }

    /// The user's answer to an approval request.
    pub fn approval(&mut self, approved: bool) -> (a: Action)
        requires
            old(self).wf(),
            old(self).phase() is AwaitApproval,
        ensures
            final(self).wf(),
            final(self).same_setup(&*old(self)),
            final(self).cancelled() == old(self).cancelled(),
            final(self).context() == old(self).context(),
            final(self).logger() == old(self).logger(),
            final(self).iterations() == old(self).iterations(),
            final(self).events() == old(self).events(),
            final(self).text() == old(self).text(),
            final(self).calls() == old(self).calls(),
            final(self).cursor() == old(self).cursor(),
            Self::approval_step(&*old(self), &*final(self), approved, action_view(a)),
    {
        if approved {
            self.go_ahead_now()
        } else {
            self.pending = Some(ToolResult::err("Permission denied by user"));
            self.phase = Phase::Record;
            Action::Continue
        }
    }

    /// The result of executing the current tool call.
    pub fn tool_finished(&mut self, result: ToolResult) -> (a: Action)
        requires
            old(self).wf(),
            old(self).phase() is AwaitExecution,
        ensures
            final(self).wf(),
            final(self).same_setup(&*old(self)),
            final(self).cancelled() == old(self).cancelled(),
            final(self).context() == old(self).context(),
            final(self).logger() == old(self).logger(),
            final(self).iterations() == old(self).iterations(),
            final(self).events() == old(self).events(),
            final(self).text() == old(self).text(),
            final(self).calls() == old(self).calls(),
            final(self).cursor() == old(self).cursor(),
            final(self).pending() == Some(result_view(result)),
            final(self).phase() is Record,
            action_view(a) is Continue,
    {
        self.pending = Some(result);
        self.phase = Phase::Record;
        Action::Continue
    }

    /// Hand out the events gathered so far, in order.
    pub fn take_events(&mut self) -> (r: Vec<OutputEvent>)
        requires
            old(self).wf(),
        ensures
            final(self).wf(),
            event_views(r@) == old(self).events(),
            final(self).events().len() == 0,
            final(self).same_setup(&*old(self)),
            final(self).cancelled() == old(self).cancelled(),
            final(self).context() == old(self).context(),
            final(self).logger() == old(self).logger(),
            final(self).iterations() == old(self).iterations(),
            final(self).phase() == old(self).phase(),
            final(self).same_buffers(&*old(self)),
    {
        let mut out: Vec<OutputEvent> = Vec::new();
        std::mem::swap(&mut out, &mut self.events);
        assert(self.events() =~= Seq::<EventView>::empty());
        out
    }

    /// Ask the running turn to stop at the top of its loop.
    pub fn cancel(&mut self)
        requires
            old(self).wf(),
        ensures
            final(self).wf(),
            final(self).cancelled(),
            final(self).same_setup(&*old(self)),
            final(self).context() == old(self).context(),
            final(self).logger() == old(self).logger(),
            final(self).iterations() == old(self).iterations(),
            final(self).phase() == old(self).phase(),
            final(self).events() == old(self).events(),
            final(self).same_buffers(&*old(self)),
    {
        self.cancelled = true;
    }

    /// Reset conversation state: history, pinned files and usage. No turn
    /// may be running.
    pub fn reset(&mut self)
        requires
            old(self).wf(),
            old(self).phase() is Idle,
        ensures
            final(self).wf(),
            final(self).context().history().len() == 0,
            final(self).context().pinned().len() == 0,
            final(self).context().token_usage().input_tokens == 0,
            final(self).context().token_usage().output_tokens == 0,
            final(self).context().prompt() == old(self).context().prompt(),
            final(self).context().instructions() == old(self).context().instructions(),
            final(self).context().project_context() == old(self).context().project_context(),
            final(self).context().window() == old(self).context().window(),
            final(self).context().instruction_file() == old(self).context().instruction_file(),
            final(self).context().max_lines() == old(self).context().max_lines(),
            final(self).same_setup(&*old(self)),
            final(self).cancelled() == old(self).cancelled(),
            final(self).logger() == old(self).logger(),
            final(self).iterations() == old(self).iterations(),
            final(self).phase() == old(self).phase(),
            final(self).events() == old(self).events(),
            final(self).same_buffers(&*old(self)),
    {
        self.context_manager.reset();
    }

    /// Pin a file mid-session: `path` is taken relative to the project root,
    /// and `content` is the file's content.
    pub fn add_file_to_context(&mut self, path: &str, content: &str)
        requires
            old(self).wf(),
        ensures
            final(self).wf(),
            final(self).context().pinned() == old(self).context().pinned().push(
                (
                    path_join(old(self).tool_context().project_root@, path@),
                    first_lines(content@, old(self).context().max_lines() as nat),
                ),
            ),
            final(self).context().history() == old(self).context().history(),
            final(self).context().token_usage() == old(self).context().token_usage(),
            final(self).context().prompt() == old(self).context().prompt(),
            final(self).context().instructions() == old(self).context().instructions(),
            final(self).context().project_context() == old(self).context().project_context(),
            final(self).context().window() == old(self).context().window(),
            final(self).context().instruction_file() == old(self).context().instruction_file(),
            final(self).context().max_lines() == old(self).context().max_lines(),
            final(self).same_setup(&*old(self)),
            final(self).cancelled() == old(self).cancelled(),
            final(self).logger() == old(self).logger(),
            final(self).iterations() == old(self).iterations(),
            final(self).phase() == old(self).phase(),
            final(self).events() == old(self).events(),
            final(self).same_buffers(&*old(self)),
    {
        self.context_manager.add_file(path, self.tool_context.project_root.as_str(), content);
    }

    /// Get accumulated token usage.
    pub fn usage(&self) -> (r: &TokenUsage)
        ensures
            *r == self.context().token_usage(),
    {
        self.context_manager.usage()
    }

    /// The context manager.
    pub fn context_manager(&self) -> (r: &ContextManager)
        ensures
            *r == self.context(),
    {
        &self.context_manager
    }

    /// The session logger, for writing its entries out.
    pub fn session_logger(&self) -> (r: &SessionLogger)
        ensures
            *r == self.logger(),
    {
        &self.session_logger
    }

    /// The registered tools, for the caller that executes them.
    pub fn tool_registry(&self) -> (r: &ToolRegistry<T>)
        ensures
            *r == self.registry(),
    {
        &self.tool_registry
    }
}

} // verus!
