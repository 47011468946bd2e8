use niya::json::{JsonNumber, JsonValue};
use niya::provider::{chat_status_error, validation_outcome, OpenAiCompatAdapter};
use niya::sse::{finish_chunks, interpret_payloads, sse_frames, PendingChunk, SseDecoder, SseFrame, SsePayload};
use niya::types::{AssistantContent, ChatRequest, ChatResponseChunk, Message, ProviderError, ToolSchema};

fn to_json(v: &serde_json::Value) -> JsonValue {
    match v {
        serde_json::Value::Null => JsonValue::Null,
        serde_json::Value::Bool(b) => JsonValue::Bool(*b),
        serde_json::Value::Number(n) => {
            if let Some(u) = n.as_u64() {
                JsonValue::Number(JsonNumber::Unsigned(u))
            } else if let Some(i) = n.as_i64() {
                JsonValue::Number(JsonNumber::Signed(i))
            } else {
                JsonValue::Number(JsonNumber::Other(n.to_string()))
            }
        }
        serde_json::Value::String(s) => JsonValue::Str(s.clone()),
        serde_json::Value::Array(a) => JsonValue::Array(a.iter().map(to_json).collect()),
        serde_json::Value::Object(m) => JsonValue::Object(m.iter().map(|(k, v)| (k.clone(), to_json(v))).collect()),
    }
}

fn parse(text: &str) -> Option<JsonValue> {
    serde_json::from_str::<serde_json::Value>(text).ok().map(|v| to_json(&v))
}

fn parse_sse_chunks(text: &str) -> Option<Vec<ChatResponseChunk>> {
    let payloads: Vec<SsePayload> = sse_frames(text)
        .into_iter()
        .map(|f| match f {
            SseFrame::Done => SsePayload::Done,
            SseFrame::Data(d) => SsePayload::Json(parse(&d)),
        })
        .collect();
    let pending = interpret_payloads(&payloads);
    let parsed: Vec<Option<JsonValue>> = pending
        .iter()
        .map(|p| match p {
            PendingChunk::End { arguments, .. } => parse(arguments),
            _ => None,
        })
        .collect();
    finish_chunks(pending, parsed)
}

#[test]
fn parse_sse_text_delta() {
    let sse = r#"data: {"choices":[{"delta":{"content":"Hello"}}]}"#;
    let chunks = parse_sse_chunks(sse).unwrap();
    assert_eq!(chunks.len(), 1);
    assert!(matches!(&chunks[0], ChatResponseChunk::TextDelta { text } if text == "Hello"));
}

#[test]
fn parse_sse_done() {
    let sse = "data: [DONE]";
    let chunks = parse_sse_chunks(sse).unwrap();
    assert!(matches!(chunks[0], ChatResponseChunk::Done));
}

#[test]
fn parse_sse_ignores_empty_lines() {
    let chunks = parse_sse_chunks("\n\n: comment\n");
    assert!(chunks.is_none());
}

#[test]
fn parse_sse_emits_tool_use_end_on_tool_finish() {
    let sse = r#"data: {"choices":[{"delta":{"tool_calls":[{"index":0,"id":"call_1","function":{"name":"file_read","arguments":"{\"file_path\":\"src/main.rs\"}"}}]},"finish_reason":"tool_calls"}]}"#;
    let chunks = parse_sse_chunks(sse).unwrap();
    assert!(chunks
        .iter()
        .any(|c| matches!(c, ChatResponseChunk::ToolUseStart { name, .. } if name == "file_read")));
    assert!(chunks
        .iter()
        .any(|c| matches!(c, ChatResponseChunk::ToolUseEnd { id, .. } if id == "call_1")));
}

#[test]
fn parse_sse_keeps_unparsed_arguments_and_usage() {
    let sse = "data: {\"choices\":[{\"delta\":{\"tool_calls\":[{\"index\":2,\"function\":{\"arguments\":\"{oops\"}}]},\"finish_reason\":\"tool_calls\"}]}\ndata: {\"usage\":{\"prompt_tokens\":7,\"completion_tokens\":3}}";
    let chunks = parse_sse_chunks(sse).unwrap();
    assert!(matches!(&chunks[0], ChatResponseChunk::ToolUseDelta { id, input_delta } if id == "tool_2" && input_delta == "{oops"));
    match &chunks[1] {
        ChatResponseChunk::ToolUseEnd { id, input } => {
            assert_eq!(id, "tool_2");
            assert!(matches!(input.get("raw_arguments"), Some(JsonValue::Str(s)) if s == "{oops"));
        }
        other => panic!("unexpected {:?}", other),
    }
    assert!(matches!(chunks[2], ChatResponseChunk::Usage { input_tokens: 7, output_tokens: 3 }));
}

#[test]
fn build_request_body_includes_system_message() {
    let adapter = OpenAiCompatAdapter::new("test", "http://localhost:8080/v1", None, "test-model", 128_000);
    let request = ChatRequest {
        system: "You are helpful.".to_string(),
        messages: vec![Message::User { content: "Hi".to_string() }],
        tools: vec![],
        model: String::new(),
        max_tokens: 4096,
    };
    let body = adapter.build_request_body(&request);
    let messages = body.get("messages").unwrap().as_array().unwrap();
    assert!(matches!(messages[0].get("role"), Some(JsonValue::Str(r)) if r == "system"));
    assert!(matches!(messages[1].get("role"), Some(JsonValue::Str(r)) if r == "user"));
}

#[test]
fn request_body_carries_tool_calls_tools_and_model() {
    let adapter = OpenAiCompatAdapter::new("test", "http://h/v1", Some("k".to_string()), "default-model", 1000);
    let request = ChatRequest {
        system: "S".to_string(),
        messages: vec![Message::Assistant {
            content: vec![
                AssistantContent::Text { text: "a".to_string() },
                AssistantContent::ToolUse {
                    id: "c1".to_string(),
                    name: "grep".to_string(),
                    input: JsonValue::Object(vec![("pattern".to_string(), JsonValue::Str("x".to_string()))]),
                },
                AssistantContent::Text { text: "b".to_string() },
            ],
        }],
        tools: vec![ToolSchema { name: "grep".to_string(), description: "d".to_string(), parameters: JsonValue::Null }],
        model: "m2".to_string(),
        max_tokens: 10,
    };
    let body = adapter.build_request_body(&request);
    assert!(matches!(body.get("model"), Some(JsonValue::Str(m)) if m == "m2"));
    assert!(matches!(body.get("stream"), Some(JsonValue::Bool(true))));
    assert!(matches!(body.get("max_tokens"), Some(JsonValue::Number(JsonNumber::Unsigned(10)))));
    let msgs = body.get("messages").unwrap().as_array().unwrap();
    let assistant = &msgs[1];
    assert!(matches!(assistant.get("content"), Some(JsonValue::Str(c)) if c == "ab"));
    let calls = assistant.get("tool_calls").unwrap().as_array().unwrap();
    assert_eq!(calls.len(), 1);
    let f = calls[0].get("function").unwrap();
    assert!(matches!(f.get("arguments"), Some(JsonValue::Str(a)) if a == "{\"pattern\":\"x\"}"));
    assert_eq!(body.get("tools").unwrap().as_array().unwrap().len(), 1);
    assert_eq!(adapter.chat_url(), "http://h/v1/chat/completions");
    assert_eq!(adapter.models_url(), "http://h/v1/models");
    assert_eq!(adapter.api_key(), Some("k"));
}

#[test]
fn status_errors_map_to_provider_errors() {
    assert!(matches!(chat_status_error(429, "429 Too Many Requests", "slow"), ProviderError::RateLimit { message, retry_after_ms: None } if message == "slow"));
    assert!(matches!(chat_status_error(401, "401 Unauthorized", "no"), ProviderError::Auth { message } if message == "no"));
    assert!(matches!(chat_status_error(500, "500 Internal Server Error", "boom"), ProviderError::Server { message } if message == "Status 500 Internal Server Error: boom"));
    assert!(validation_outcome(200, "200 OK").is_ok());
    assert!(matches!(validation_outcome(401, "401 Unauthorized"), Err(ProviderError::Auth { message }) if message == "Invalid API key"));
    assert!(matches!(validation_outcome(404, "404 Not Found"), Err(ProviderError::Server { message }) if message == "Unexpected status: 404 Not Found"));
}

fn decode_pieces(pieces: &[&str]) -> Vec<ChatResponseChunk> {
    let mut decoder = SseDecoder::new();
    let mut out = Vec::new();
    let feed = |text: &str, decoder: &mut SseDecoder| {
        let lines = decoder.take_lines(text);
        let payloads: Vec<SsePayload> = sse_frames(&lines)
            .into_iter()
            .map(|f| match f {
                SseFrame::Done => SsePayload::Done,
                SseFrame::Data(d) => SsePayload::Json(parse(&d)),
            })
            .collect();
        let pending = decoder.feed(&payloads);
        let parsed: Vec<Option<JsonValue>> = pending
            .iter()
            .map(|p| match p {
                PendingChunk::End { arguments, .. } => parse(arguments),
                _ => None,
            })
            .collect();
        finish_chunks(pending, parsed).unwrap_or_default()
    };
    for p in pieces {
        out.extend(feed(p, &mut decoder));
    }
    out.extend(feed("\n", &mut decoder));
    out
}

#[test]
fn decoding_does_not_depend_on_where_the_stream_is_split() {
    let parts: Vec<&str> = vec![
        "data: {\"choices\":[{\"delta\":{\"tool_calls\":[{\"index\":0,\"id\":\"call_1\",\"function\":{\"name\":\"file_read\",\"arguments\":\"\"}}]}}]}\n\n",
        "data: {\"choices\":[{\"delta\":{\"tool_calls\":[{\"index\":0,\"function\":{\"arguments\":\"{\\\"file_path\\\":\"}}]}}]}\n\n",
        "data: {\"choices\":[{\"delta\":{\"tool_calls\":[{\"index\":0,\"function\":{\"arguments\":\"\\\"a.rs\\\"}\"}}]}}]}\n\n",
        "data: {\"choices\":[{\"delta\":{},\"finish_reason\":\"tool_calls\"}]}\n\n",
        "data: [DONE]\n\n",
    ];
    let joined = parts.concat();
    let stream = joined.as_str();
    let whole = parse_sse_chunks(stream).unwrap();
    let mut pieces: Vec<&str> = Vec::new();
    let mut at = 0;
    while at < stream.len() {
        let end = (at + 37).min(stream.len());
        pieces.push(&stream[at..end]);
        at = end;
    }
    let split = decode_pieces(&pieces);
    assert_eq!(format!("{:?}", split), format!("{:?}", whole));
    assert!(split.iter().any(|c| matches!(c, ChatResponseChunk::ToolUseEnd { id, .. } if id == "call_1")));
}
