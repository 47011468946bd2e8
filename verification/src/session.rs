//! Session logger.
//!
//! Records every event in the agentic loop for audit and debugging, as JSON
//! objects kept in memory. Writing them out as JSON Lines happens at the edge
//! of the program, to the file named by [`SessionLogger::log_path`].
use vstd::prelude::*;

use crate::context::byte_len;
use crate::json::{json_object, json_str, json_u64, member_views, push_member, views, JsonValue, JsonView, NumberView};
use crate::paths::{join, path_join};
use crate::permission::{decision_view, DecisionView};
use crate::text::{push_str, chars_of, string_from_chars};
use crate::types::{PermissionDecision, ToolResult};

verus! {

/// The current time as an RFC 3339 timestamp: the system clock's time since
/// the Unix epoch, made a `chrono::DateTime<Utc>` with `from_timestamp` and
/// printed with `to_rfc3339` (what `Utc::now().to_rfc3339()` gives, without
/// its panic on a clock before 1970). `None` when the clock reads before the
/// epoch or past what `chrono` can represent. Nothing is promised of the
/// text: it depends on the clock.
#[verifier::external_body]
fn now_rfc3339() -> (r: Option<String>) {
    let since = std::time::SystemTime::now().duration_since(std::time::UNIX_EPOCH).ok()?;
    let secs = i64::try_from(since.as_secs()).ok()?;
    chrono::DateTime::from_timestamp(secs, since.subsec_nanos()).map(|t| t.to_rfc3339())
}

/// The timestamp of a log entry: the current time, or the empty text when
/// the clock cannot be read as a date.
fn timestamp() -> String {
    match now_rfc3339() {
        Some(t) => t,
        None => String::new(),
    }
}

/// The object `{"event": .., "timestamp": .., "session_id": .., rest..}`.
pub open spec fn entry_view(
    event: Seq<char>,
    timestamp: Seq<char>,
    session_id: Seq<char>,
    rest: Seq<(Seq<char>, JsonView)>,
) -> JsonView {
    JsonView::Object(
        seq![
            ("event"@, JsonView::Str(event)),
            ("timestamp"@, JsonView::Str(timestamp)),
            ("session_id"@, JsonView::Str(session_id)),
        ] + rest,
    )
}

/// The word a log entry uses for a permission decision.
pub open spec fn decision_word(d: DecisionView) -> Seq<char> {
    match d {
        DecisionView::Allow => "allow"@,
        DecisionView::Deny(_) => "deny"@,
        DecisionView::Ask(_) => "ask"@,
    }
}

/// The entry for a user message.
pub open spec fn user_message_view(timestamp: Seq<char>, session_id: Seq<char>, message: Seq<char>) -> JsonView {
    entry_view("user_message"@, timestamp, session_id, seq![("message"@, JsonView::Str(message))])
}

/// The entry for a tool call and the decision taken on it.
pub open spec fn tool_call_view(
    timestamp: Seq<char>,
    session_id: Seq<char>,
    tool: Seq<char>,
    args: JsonView,
    decision: DecisionView,
) -> JsonView {
    entry_view(
        "tool_call"@,
        timestamp,
        session_id,
        seq![
            ("tool"@, JsonView::Str(tool)),
            ("args"@, args),
            ("decision"@, JsonView::Str(decision_word(decision))),
        ],
    )
}

/// The entry for a tool result: whether it succeeded and the byte length of
/// its output.
pub open spec fn tool_result_view(
    timestamp: Seq<char>,
    session_id: Seq<char>,
    tool: Seq<char>,
    success: bool,
    output: Seq<char>,
) -> JsonView {
    entry_view(
        "tool_result"@,
        timestamp,
        session_id,
        seq![
            ("tool"@, JsonView::Str(tool)),
            ("success"@, JsonView::Bool(success)),
            ("output_length"@, JsonView::Number(NumberView::Unsigned(byte_len(output) as u64))),
        ],
    )
}

/// The entry for an error.
pub open spec fn error_view(timestamp: Seq<char>, session_id: Seq<char>, error: Seq<char>) -> JsonView {
    entry_view("error"@, timestamp, session_id, seq![("error"@, JsonView::Str(error))])
}

/// The first three members of every entry.
fn entry_head(event: &str, timestamp: &str, session_id: &str) -> (r: Vec<(String, JsonValue)>)
    ensures
        member_views(r@) == seq![
            ("event"@, JsonView::Str(event@)),
            ("timestamp"@, JsonView::Str(timestamp@)),
            ("session_id"@, JsonView::Str(session_id@)),
        ],
{
    let mut m: Vec<(String, JsonValue)> = Vec::new();
    push_member(&mut m, "event", json_str(event));
    push_member(&mut m, "timestamp", json_str(timestamp));
    push_member(&mut m, "session_id", json_str(session_id));
    assert(member_views(m@) =~= seq![
        ("event"@, JsonView::Str(event@)),
        ("timestamp"@, JsonView::Str(timestamp@)),
        ("session_id"@, JsonView::Str(session_id@)),
    ]);
    m
}

/// The log entry for a user message written at `timestamp`.
pub fn user_message_entry(timestamp: &str, session_id: &str, message: &str) -> (r: JsonValue)
    ensures
        r@ == user_message_view(timestamp@, session_id@, message@),
{
    let mut m = entry_head("user_message", timestamp, session_id);
    let ghost h = member_views(m@);
    push_member(&mut m, "message", json_str(message));
    assert(member_views(m@) =~= h + seq![("message"@, JsonView::Str(message@))]);
    json_object(m)
}

/// The log entry for a call of `tool` with `args`, decided as `decision`,
/// written at `timestamp`.
pub fn tool_call_entry(
    timestamp: &str,
    session_id: &str,
    tool: &str,
    args: &JsonValue,
    decision: &PermissionDecision,
) -> (r: JsonValue)
    ensures
        r@ == tool_call_view(timestamp@, session_id@, tool@, args@, decision_view(*decision)),
{
    let word = match decision {
        PermissionDecision::Allow => "allow",
        PermissionDecision::Deny { .. } => "deny",
        PermissionDecision::Ask { .. } => "ask",
    };
    let mut m = entry_head("tool_call", timestamp, session_id);
    let ghost h = member_views(m@);
    push_member(&mut m, "tool", json_str(tool));
    push_member(&mut m, "args", args.copy());
    push_member(&mut m, "decision", json_str(word));
    assert(member_views(m@) =~= h + seq![
        ("tool"@, JsonView::Str(tool@)),
        ("args"@, args@),
        ("decision"@, JsonView::Str(decision_word(decision_view(*decision)))),
    ]);
    json_object(m)
}

/// The log entry for the result of `tool`, written at `timestamp`.
pub fn tool_result_entry(timestamp: &str, session_id: &str, tool: &str, result: &ToolResult) -> (r: JsonValue)
    ensures
        r@ == tool_result_view(timestamp@, session_id@, tool@, result.success, result.output@),
{
    let len = result.output.as_str().len();
    let mut m = entry_head("tool_result", timestamp, session_id);
    let ghost h = member_views(m@);
    push_member(&mut m, "tool", json_str(tool));
    push_member(&mut m, "success", JsonValue::Bool(result.success));
    push_member(&mut m, "output_length", json_u64(len as u64));
    assert(member_views(m@) =~= h + seq![
        ("tool"@, JsonView::Str(tool@)),
        ("success"@, JsonView::Bool(result.success)),
        ("output_length"@, JsonView::Number(NumberView::Unsigned(byte_len(result.output@) as u64))),
    ]);
    json_object(m)
}

/// The log entry for an error, written at `timestamp`.
pub fn error_entry(timestamp: &str, session_id: &str, error: &str) -> (r: JsonValue)
    ensures
        r@ == error_view(timestamp@, session_id@, error@),
{
    let mut m = entry_head("error", timestamp, session_id);
    let ghost h = member_views(m@);
    push_member(&mut m, "error", json_str(error));
    assert(member_views(m@) =~= h + seq![("error"@, JsonView::Str(error@))]);
    json_object(m)
}

/// Logger that records session events as JSON objects.
#[derive(Debug)]
pub struct SessionLogger {
    session_id: String,
    log_path: Option<String>,
    entries: Vec<JsonValue>,
}

impl SessionLogger {
    /// The session's identifier.
    pub closed spec fn id(&self) -> Seq<char> {
        self.session_id@
    }

    /// The file the entries are written to, if any.
    pub closed spec fn path(&self) -> Option<Seq<char>> {
        match self.log_path {
            Some(p) => Some(p@),
            None => None,
        }
    }

    /// The entries logged so far, in order.
    pub closed spec fn logged(&self) -> Seq<JsonView> {
        views(self.entries@)
    }

    /// Create a new session logger.
    ///
    /// If `log_dir` is provided, the log file is `<log_dir>/<session_id>.jsonl`.
    /// Otherwise, events are kept in memory only.
    pub fn new(session_id: &str, log_dir: Option<&str>) -> (r: SessionLogger)
        ensures
            r.id() == session_id@,
            r.path() == match log_dir {
                Some(d) => Some(path_join(d@, session_id@ + ".jsonl"@)),
                None => None::<Seq<char>>,
            },
            r.logged().len() == 0,
    {
        let log_path = match log_dir {
            Some(dir) => {
                let mut v = chars_of(session_id);
                push_str(&mut v, ".jsonl");
                let file = string_from_chars(v.as_slice());
                Some(join(dir, file.as_str()))
            },
            None => None,
        };
        let r = SessionLogger { session_id: session_id.to_owned(), log_path, entries: Vec::new() };
        assert(r.logged() =~= Seq::<JsonView>::empty());
        r
    }

    fn append(&mut self, entry: JsonValue)
        ensures
            final(self).logged() == old(self).logged().push(entry@),
            final(self).id() == old(self).id(),
            final(self).path() == old(self).path(),
    {
        let ghost before = views(self.entries@);
        self.entries.push(entry);
        assert(views(self.entries@) =~= before.push(entry@));
    }

    /// Log a user message.
    pub fn log_user_message(&mut self, message: &str)
        ensures
            exists|ts: Seq<char>|
                final(self).logged() == old(self).logged().push(
                    #[trigger] user_message_view(ts, old(self).id(), message@),
                ),
            final(self).id() == old(self).id(),
            final(self).path() == old(self).path(),
    {
        let ts = timestamp();
        let e = user_message_entry(ts.as_str(), self.session_id.as_str(), message);
        self.append(e);
    }

    /// Log a tool invocation with the permission decision.
    pub fn log_tool_call(&mut self, tool_name: &str, args: &JsonValue, decision: &PermissionDecision)
        ensures
            exists|ts: Seq<char>|
                final(self).logged() == old(self).logged().push(
                    #[trigger] tool_call_view(ts, old(self).id(), tool_name@, args@, decision_view(*decision)),
                ),
            final(self).id() == old(self).id(),
            final(self).path() == old(self).path(),
    {
        let ts = timestamp();
        let e = tool_call_entry(ts.as_str(), self.session_id.as_str(), tool_name, args, decision);
        self.append(e);
    }

    /// Log a tool result.
    pub fn log_tool_result(&mut self, tool_name: &str, result: &ToolResult)
        ensures
            exists|ts: Seq<char>|
                final(self).logged() == old(self).logged().push(
                    #[trigger] tool_result_view(ts, old(self).id(), tool_name@, result.success, result.output@),
                ),
            final(self).id() == old(self).id(),
            final(self).path() == old(self).path(),
    {
        let ts = timestamp();
        let e = tool_result_entry(ts.as_str(), self.session_id.as_str(), tool_name, result);
        self.append(e);
    }

    /// Log an error.
    pub fn log_error(&mut self, error: &str)
        ensures
            exists|ts: Seq<char>|
                final(self).logged() == old(self).logged().push(#[trigger] error_view(ts, old(self).id(), error@)),
            final(self).id() == old(self).id(),
            final(self).path() == old(self).path(),
    {
        let ts = timestamp();
        let e = error_entry(ts.as_str(), self.session_id.as_str(), error);
        self.append(e);
    }

    /// Get the session ID.
    pub fn session_id(&self) -> (r: &str)
        ensures
            r@ == self.id(),
    {
        self.session_id.as_str()
    }

    /// Get all logged entries.
    pub fn entries(&self) -> (r: &Vec<JsonValue>)
        ensures
            views(r@) == self.logged(),
    {
        &self.entries
    }

    /// The file the entries are to be written to, if any.
    pub fn log_path(&self) -> (r: Option<&str>)
        ensures
            match r {
                Some(p) => self.path() == Some(p@),
                None => self.path() is None,
            },
    {
        match &self.log_path {
            Some(p) => Some(p.as_str()),
            None => None,
        }
    }
}

} // verus!
