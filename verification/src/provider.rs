//! OpenAI-compatible provider adapter: what the adapter decides.
//!
//! Works with any endpoint that implements the OpenAI Chat Completions API
//! format. The request body, the endpoint URLs and the mapping of HTTP
//! statuses to provider errors are built here; the HTTP exchange itself, and
//! the reading of the event stream (see [`crate::sse`]), happen at the edge
//! of the program.
use vstd::prelude::*;

use crate::json::{compact_text, json_array, json_compact, json_object, json_str, member_views, push_member, views, JsonNumber, JsonValue, JsonView, NumberView};
use crate::text::{chars_of, concat_str, push_str, string_from_chars};
use crate::types::{
    content_view, content_views, message_view, message_views, schema_view, schema_views, AssistantContent,
    ChatRequest, ContentView, Message, MessageView, ProviderError, SchemaView, ToolSchema,
};

verus! {

/// The text of a list of assistant blocks: the texts of its text blocks, in order.
pub open spec fn text_of(cs: Seq<ContentView>) -> Seq<char>
    decreases cs.len(),
{
    if cs.len() == 0 {
        Seq::empty()
    } else {
        text_of(cs.drop_last()) + match cs.last() {
            ContentView::Text(t) => t,
            _ => Seq::empty(),
        }
    }
}

/// Whether a list of assistant blocks has a text block.
pub open spec fn has_text(cs: Seq<ContentView>) -> bool
    decreases cs.len(),
{
    cs.len() > 0 && (has_text(cs.drop_last()) || cs.last() is Text)
}

/// The request entry for one tool-use block.
pub open spec fn tool_call_json(id: Seq<char>, name: Seq<char>, arguments: Seq<char>) -> JsonView {
    JsonView::Object(
        seq![
            ("id"@, JsonView::Str(id)),
            ("type"@, JsonView::Str("function"@)),
            ("function"@, JsonView::Object(seq![("name"@, JsonView::Str(name)), ("arguments"@, JsonView::Str(arguments))])),
        ],
    )
}

/// The request entries for the tool-use blocks of a list, in order.
pub open spec fn tool_calls_of(cs: Seq<ContentView>) -> Seq<JsonView>
    decreases cs.len(),
{
    if cs.len() == 0 {
        Seq::empty()
    } else {
        tool_calls_of(cs.drop_last()) + match cs.last() {
            ContentView::ToolUse(id, name, input) => seq![tool_call_json(id, name, json_compact(input))],
            _ => Seq::empty(),
        }
    }
}

/// The request message for an assistant message.
pub open spec fn assistant_json(cs: Seq<ContentView>) -> JsonView {
    JsonView::Object(
        seq![("role"@, JsonView::Str("assistant"@))] + (if has_text(cs) {
            seq![("content"@, JsonView::Str(text_of(cs)))]
        } else {
            Seq::empty()
        }) + (if tool_calls_of(cs).len() > 0 {
            seq![("tool_calls"@, JsonView::Array(tool_calls_of(cs)))]
        } else {
            Seq::empty()
        }),
    )
}

/// The request message for a conversation message.
pub open spec fn message_json(m: MessageView) -> JsonView {
    match m {
        MessageView::User(content) => JsonView::Object(
            seq![("role"@, JsonView::Str("user"@)), ("content"@, JsonView::Str(content))],
        ),
        MessageView::Assistant(cs) => assistant_json(cs),
        MessageView::Tool(id, content) => JsonView::Object(
            seq![
                ("role"@, JsonView::Str("tool"@)),
                ("tool_call_id"@, JsonView::Str(id)),
                ("content"@, JsonView::Str(content)),
            ],
        ),
    }
}

/// The request entry for a tool schema.
pub open spec fn tool_json(s: SchemaView) -> JsonView {
    JsonView::Object(
        seq![
            ("type"@, JsonView::Str("function"@)),
            ("function"@, JsonView::Object(
                seq![
                    ("name"@, JsonView::Str(s.name)),
                    ("description"@, JsonView::Str(s.description)),
                    ("parameters"@, s.parameters),
                ],
            )),
        ],
    )
}

/// The request body for a chat request, in the Chat Completions format.
/// `default_model` is used when the request names no model.
pub open spec fn request_body(
    default_model: Seq<char>,
    system: Seq<char>,
    messages: Seq<MessageView>,
    tools: Seq<SchemaView>,
    model: Seq<char>,
    max_tokens: u32,
) -> JsonView {
    let system_json = JsonView::Object(
        seq![("role"@, JsonView::Str("system"@)), ("content"@, JsonView::Str(system))],
    );
    JsonView::Object(
        seq![
            ("model"@, JsonView::Str(if model.len() == 0 { default_model } else { model })),
            ("messages"@, JsonView::Array(seq![system_json] + messages.map_values(|m: MessageView| message_json(m)))),
            ("max_tokens"@, JsonView::Number(NumberView::Unsigned(max_tokens as u64))),
            ("stream"@, JsonView::Bool(true)),
        ] + (if tools.len() > 0 {
            seq![("tools"@, JsonView::Array(tools.map_values(|s: SchemaView| tool_json(s))))]
        } else {
            Seq::empty()
        }),
    )
}

/// Whether an HTTP status is a success (2xx).
pub open spec fn is_success(code: u16) -> bool {
    200 <= code <= 299
}

/// Adapter for OpenAI-compatible APIs: the endpoint and the model.
#[derive(Clone, Debug)]
pub struct OpenAiCompatAdapter {
    name: String,
    base_url: String,
    api_key: Option<String>,
    model: String,
    context_window: usize,
}

fn string_json(key: &str, value: &str, m: &mut Vec<(String, JsonValue)>)
    ensures
        member_views(final(m)@) == member_views(old(m)@).push((key@, JsonView::Str(value@))),
{
    push_member(m, key, json_str(value));
}

/// The request entry for one tool-use block.
fn tool_call_value(id: &str, name: &str, input_text: &str) -> (r: JsonValue)
    ensures
        r@ == tool_call_json(id@, name@, input_text@),
{
    let mut f: Vec<(String, JsonValue)> = Vec::new();
    string_json("name", name, &mut f);
    string_json("arguments", input_text, &mut f);
    let mut m: Vec<(String, JsonValue)> = Vec::new();
    string_json("id", id, &mut m);
    string_json("type", "function", &mut m);
    push_member(&mut m, "function", json_object(f));
    assert(member_views(m@) =~= tool_call_json(id@, name@, input_text@)->Object_0) by {
        assert(member_views(f@) =~= seq![("name"@, JsonView::Str(name@)), ("arguments"@, JsonView::Str(input_text@))]);
    }
    json_object(m)
}

/// The request message for an assistant message.
fn assistant_value(content: &Vec<AssistantContent>) -> (r: JsonValue)
    ensures
        r@ == assistant_json(content_views(content@)),
{
    let ghost cs = content_views(content@);
    let mut text: Vec<char> = Vec::new();
    let mut any_text = false;
    let mut calls: Vec<JsonValue> = Vec::new();
    let mut i: usize = 0;
    assert(cs.subrange(0, 0) =~= Seq::<ContentView>::empty());
    while i < content.len()
        invariant
            i <= content@.len(),
            cs == content_views(content@),
            text@ == text_of(cs.subrange(0, i as int)),
            any_text == has_text(cs.subrange(0, i as int)),
            views(calls@) == tool_calls_of(cs.subrange(0, i as int)),
        decreases content@.len() - i,
    {
        assert(cs.subrange(0, i + 1).drop_last() =~= cs.subrange(0, i as int));
        assert(cs.subrange(0, i + 1).last() == content_view(content@[i as int]));
        match &content[i] {
            AssistantContent::Text { text: t } => {
                push_str(&mut text, t.as_str());
                any_text = true;
            },
            AssistantContent::ToolUse { id, name, input } => {
                let input_text = compact_text(input);
                let ghost before = views(calls@);
                let v = tool_call_value(id.as_str(), name.as_str(), input_text.as_str());
                calls.push(v);
                assert(views(calls@) =~= before.push(v@));
            },
        }
        i = i + 1;
    }
    assert(cs.subrange(0, cs.len() as int) =~= cs);
    let mut m: Vec<(String, JsonValue)> = Vec::new();
    string_json("role", "assistant", &mut m);
    let ghost m1 = member_views(m@);
    if any_text {
        let t = string_from_chars(text.as_slice());
        string_json("content", t.as_str(), &mut m);
    }
    let ghost m2 = member_views(m@);
    assert(m2 =~= m1 + (if has_text(cs) {
        seq![("content"@, JsonView::Str(text_of(cs)))]
    } else {
        Seq::<(Seq<char>, JsonView)>::empty()
    }));
    if calls.len() > 0 {
        push_member(&mut m, "tool_calls", json_array(calls));
    }
    assert(member_views(m@) =~= assistant_json(cs)->Object_0);
    json_object(m)
}

/// The request message for a conversation message.
fn message_value(msg: &Message) -> (r: JsonValue)
    ensures
        r@ == message_json(message_view(*msg)),
{
    match msg {
        Message::User { content } => {
            let mut m: Vec<(String, JsonValue)> = Vec::new();
            string_json("role", "user", &mut m);
            string_json("content", content.as_str(), &mut m);
            assert(member_views(m@) =~= message_json(message_view(*msg))->Object_0);
            json_object(m)
        },
        Message::Assistant { content } => assistant_value(content),
        Message::Tool { tool_call_id, content } => {
            let mut m: Vec<(String, JsonValue)> = Vec::new();
            string_json("role", "tool", &mut m);
            string_json("tool_call_id", tool_call_id.as_str(), &mut m);
            string_json("content", content.as_str(), &mut m);
            assert(member_views(m@) =~= message_json(message_view(*msg))->Object_0);
            json_object(m)
        },
    }
}

/// The request entry for a tool schema.
fn tool_value(t: &ToolSchema) -> (r: JsonValue)
    ensures
        r@ == tool_json(schema_view(*t)),
{
    let mut f: Vec<(String, JsonValue)> = Vec::new();
    string_json("name", t.name.as_str(), &mut f);
    string_json("description", t.description.as_str(), &mut f);
    push_member(&mut f, "parameters", t.parameters.copy());
    let mut m: Vec<(String, JsonValue)> = Vec::new();
    string_json("type", "function", &mut m);
    push_member(&mut m, "function", json_object(f));
    assert(member_views(m@) =~= tool_json(schema_view(*t))->Object_0) by {
        assert(member_views(f@) =~= seq![
            ("name"@, JsonView::Str(t.name@)),
            ("description"@, JsonView::Str(t.description@)),
            ("parameters"@, t.parameters@),
        ]);
    }
    json_object(m)
}

impl OpenAiCompatAdapter {
    pub closed spec fn spec_name(&self) -> Seq<char> {
        self.name@
    }

    pub closed spec fn spec_base_url(&self) -> Seq<char> {
        self.base_url@
    }

    pub closed spec fn spec_api_key(&self) -> Option<Seq<char>> {
        match self.api_key {
            Some(k) => Some(k@),
            None => None,
        }
    }

    pub closed spec fn spec_model(&self) -> Seq<char> {
        self.model@
    }

    pub closed spec fn spec_context_window(&self) -> usize {
        self.context_window
    }

    /// An adapter for the endpoint at `base_url`, using `model` unless a
    /// request names another.
    pub fn new(name: &str, base_url: &str, api_key: Option<String>, model: &str, context_window: usize) -> (r: Self)
        ensures
            r.spec_name() == name@,
            r.spec_base_url() == base_url@,
            r.spec_api_key() == match api_key {
                Some(k) => Some(k@),
                None => None::<Seq<char>>,
            },
            r.spec_model() == model@,
            r.spec_context_window() == context_window,
    {
        OpenAiCompatAdapter {
            name: name.to_owned(),
            base_url: base_url.to_owned(),
            api_key,
            model: model.to_owned(),
            context_window,
        }
    }

    /// Human-readable name for this provider.
    pub fn name(&self) -> (r: &str)
        ensures
            r@ == self.spec_name(),
    {
        self.name.as_str()
    }

    /// The API key sent as a bearer token, if any.
    pub fn api_key(&self) -> (r: Option<&str>)
        ensures
            match r {
                Some(k) => self.spec_api_key() == Some(k@),
                None => self.spec_api_key() is None,
            },
    {
        match &self.api_key {
            Some(k) => Some(k.as_str()),
            None => None,
        }
    }

    /// The context window size (in tokens) for the configured model.
    pub fn context_window_size(&self) -> (r: usize)
        ensures
            r == self.spec_context_window(),
    {
        self.context_window
    }

    /// The URL that lists the models (used to validate the connection).
    pub fn models_url(&self) -> (r: String)
        ensures
            r@ == self.spec_base_url() + "/models"@,
    {
        concat_str(self.base_url.as_str(), "/models")
    }

    /// The URL of the chat completions endpoint.
    pub fn chat_url(&self) -> (r: String)
        ensures
            r@ == self.spec_base_url() + "/chat/completions"@,
    {
        concat_str(self.base_url.as_str(), "/chat/completions")
    }

    /// Build the request body in OpenAI format.
    pub fn build_request_body(&self, request: &ChatRequest) -> (r: JsonValue)
        ensures
            r@ == request_body(
                self.spec_model(),
                request.system@,
                message_views(request.messages@),
                schema_views(request.tools@),
                request.model@,
                request.max_tokens,
            ),
    {
        let ghost ms = message_views(request.messages@);
        let mut messages: Vec<JsonValue> = Vec::new();
        let mut sys: Vec<(String, JsonValue)> = Vec::new();
        string_json("role", "system", &mut sys);
        string_json("content", request.system.as_str(), &mut sys);
        let ghost sys_v = JsonView::Object(
            seq![("role"@, JsonView::Str("system"@)), ("content"@, JsonView::Str(request.system@))],
        );
        assert(member_views(sys@) =~= sys_v->Object_0);
        messages.push(json_object(sys));
        assert(views(messages@) =~= seq![sys_v]);
        let mut i: usize = 0;
        while i < request.messages.len()
            invariant
                i <= request.messages@.len(),
                ms == message_views(request.messages@),
                views(messages@) == seq![sys_v] + ms.subrange(0, i as int).map_values(|m: MessageView| message_json(m)),
            decreases request.messages@.len() - i,
        {
            let ghost before = views(messages@);
            let v = message_value(&request.messages[i]);
            messages.push(v);
            assert(views(messages@) =~= before.push(v@));
            assert(ms.subrange(0, i + 1).map_values(|m: MessageView| message_json(m)) =~= ms.subrange(0, i as int).map_values(
                |m: MessageView| message_json(m),
            ).push(message_json(ms[i as int])));
            i = i + 1;
        }
        assert(ms.subrange(0, ms.len() as int) =~= ms);
        let model = if request.model.as_str().is_empty() {
            self.model.as_str()
        } else {
            request.model.as_str()
        };
        let mut body: Vec<(String, JsonValue)> = Vec::new();
        string_json("model", model, &mut body);
        push_member(&mut body, "messages", json_array(messages));
        push_member(&mut body, "max_tokens", JsonValue::Number(JsonNumber::Unsigned(request.max_tokens as u64)));
        push_member(&mut body, "stream", JsonValue::Bool(true));
        let ghost head = member_views(body@);
        if request.tools.len() > 0 {
            let ghost ts = schema_views(request.tools@);
            let mut tools: Vec<JsonValue> = Vec::new();
            let mut j: usize = 0;
            while j < request.tools.len()
                invariant
                    j <= request.tools@.len(),
                    ts == schema_views(request.tools@),
                    views(tools@) == ts.subrange(0, j as int).map_values(|s: SchemaView| tool_json(s)),
                decreases request.tools@.len() - j,
            {
                let ghost before = views(tools@);
                let v = tool_value(&request.tools[j]);
                tools.push(v);
                assert(views(tools@) =~= before.push(v@));
                assert(ts.subrange(0, j + 1).map_values(|s: SchemaView| tool_json(s)) =~= ts.subrange(0, j as int).map_values(
                    |s: SchemaView| tool_json(s),
                ).push(tool_json(ts[j as int])));
                j = j + 1;
            }
            assert(ts.subrange(0, ts.len() as int) =~= ts);
            push_member(&mut body, "tools", json_array(tools));
        }
        assert(member_views(body@) =~= request_body(
            self.spec_model(),
            request.system@,
            ms,
            schema_views(request.tools@),
            request.model@,
            request.max_tokens,
        )->Object_0);
        json_object(body)
    }
}

/// The error for a chat request answered with an unsuccessful HTTP status
/// `code`; `status` is the status as the HTTP library displays it and `body`
/// the response body.
pub fn chat_status_error(code: u16, status: &str, body: &str) -> (r: ProviderError)
    ensures
        match r {
            ProviderError::RateLimit { message, retry_after_ms } => code == 429 && message@ == body@
                && retry_after_ms is None,
            ProviderError::Auth { message } => code == 401 && message@ == body@,
            ProviderError::Server { message } => code != 429 && code != 401 && message@ == "Status "@
                + status@ + ": "@ + body@,
            _ => false,
        },
{
    if code == 429 {
        ProviderError::RateLimit { message: body.to_owned(), retry_after_ms: None }
    } else if code == 401 {
        ProviderError::Auth { message: body.to_owned() }
    } else {
        let mut v = chars_of("Status ");
        push_str(&mut v, status);
        push_str(&mut v, ": ");
        push_str(&mut v, body);
        ProviderError::Server { message: string_from_chars(v.as_slice()) }
    }
}

/// The outcome of validating the connection, from the HTTP status `code` of
/// the model listing (`status` as the HTTP library displays it).
pub fn validation_outcome(code: u16, status: &str) -> (r: Result<(), ProviderError>)
    ensures
        is_success(code) <==> r is Ok,
        match r {
            Ok(()) => true,
            Err(ProviderError::Auth { message }) => code == 401 && message@ == "Invalid API key"@,
            Err(ProviderError::Server { message }) => !is_success(code) && code != 401 && message@
                == "Unexpected status: "@ + status@,
            Err(_) => false,
        },
{
    if 200 <= code && code <= 299 {
        Ok(())
    } else if code == 401 {
        Err(ProviderError::Auth { message: "Invalid API key".to_owned() })
    } else {
        Err(ProviderError::Server { message: concat_str("Unexpected status: ", status) })
    }
}

} // verus!
