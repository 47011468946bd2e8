//! Server-Sent Events from OpenAI-compatible chat completion streams.
//!
//! A stream body is read in three steps: [`sse_frames`] picks the `data:`
//! payloads out of the text; the caller parses each payload as JSON; then
//! [`interpret_payloads`] turns the parsed payloads into stream chunks. A
//! finished tool call carries the argument text accumulated for it; the
//! caller parses that text too, and [`finish_chunks`] builds the final
//! chunks, falling back to `{"raw_arguments": ...}` for arguments that are
//! not valid JSON.
use vstd::prelude::*;

use crate::json::{json_object, json_str, push_member, spec_get, spec_get_array, spec_get_str, spec_get_u64, JsonValue, JsonView};
use crate::text::{
    char_seqs, chars_of, chars_start_with, concat_str, decimal, is_prefix, push_all, slice_chars,
    split_chars_on, split_on, str_eq, string_from_chars, trim, trim_chars, u64_decimal,
};
use crate::types::{chunk_view, ChatResponseChunk, ChunkView};

verus! {

// ---------------------------------------------------------------------------
// Framing
// ---------------------------------------------------------------------------

/// One `data:` line of an event stream.
#[derive(Debug)]
pub enum SseFrame {
    /// `data: [DONE]`.
    Done,
    /// Any other `data: ` payload.
    Data(String),
}

pub enum FrameView {
    Done,
    Data(Seq<char>),
}

pub open spec fn frame_view(f: SseFrame) -> FrameView {
    match f {
        SseFrame::Done => FrameView::Done,
        SseFrame::Data(s) => FrameView::Data(s@),
    }
}

/// What a trimmed line contributes: nothing for blank lines, comments and
/// lines other than `data: ` lines.
pub open spec fn frame_of_line(line: Seq<char>) -> Option<FrameView> {
    if line.len() == 0 || line[0] == ':' {
        None
    } else if is_prefix("data: "@, line) {
        let data = line.subrange(6, line.len() as int);
        if data == "[DONE]"@ {
            Some(FrameView::Done)
        } else {
            Some(FrameView::Data(data))
        }
    } else {
        None
    }
}

/// The frames of a sequence of lines, in order.
pub open spec fn frames_of_lines(lines: Seq<Seq<char>>) -> Seq<FrameView>
    decreases lines.len(),
{
    if lines.len() == 0 {
        Seq::empty()
    } else {
        let prev = frames_of_lines(lines.drop_last());
        match frame_of_line(trim(lines.last())) {
            Some(f) => prev.push(f),
            None => prev,
        }
    }
}

/// The frames of a stream text: its lines, each trimmed, in order.
pub open spec fn spec_frames(text: Seq<char>) -> Seq<FrameView> {
    frames_of_lines(split_on(text, '\n'))
}

fn frame_of_line_exec(line: &[char]) -> (r: Option<SseFrame>)
    ensures
        match r {
            Some(f) => frame_of_line(line@) == Some(frame_view(f)),
            None => frame_of_line(line@) is None,
        },
{
    if line.len() == 0 || line[0] == ':' {
        return None;
    }
    let prefix = chars_of("data: ");
    if chars_start_with(line, prefix.as_slice()) {
        proof {
            reveal_strlit("data: ");
        }
        let data = slice_chars(line, 6, line.len());
        let done = chars_of("[DONE]");
        if data.len() == done.len() && crate::text::chars_eq(data.as_slice(), done.as_slice()) {
            Some(SseFrame::Done)
        } else {
            Some(SseFrame::Data(string_from_chars(data.as_slice())))
        }
    } else {
        None
    }
}

/// The `data:` frames of a stream text, in order.
pub fn sse_frames(text: &str) -> (r: Vec<SseFrame>)
    ensures
        r@.map_values(|f: SseFrame| frame_view(f)) == spec_frames(text@),
{
    let tc = chars_of(text);
    let lines = split_chars_on(tc.as_slice(), '\n');
    let mut out: Vec<SseFrame> = Vec::new();
    let mut i: usize = 0;
    assert(char_seqs(lines@).subrange(0, 0) =~= Seq::<Seq<char>>::empty());
    while i < lines.len()
        invariant
            i <= lines@.len(),
            char_seqs(lines@) == split_on(text@, '\n'),
            out@.map_values(|f: SseFrame| frame_view(f)) == frames_of_lines(char_seqs(lines@).subrange(0, i as int)),
        decreases lines@.len() - i,
    {
        let ghost before = char_seqs(lines@).subrange(0, i as int);
        let ghost after = char_seqs(lines@).subrange(0, i + 1);
        assert(after.drop_last() =~= before);
        assert(after.last() == lines@[i as int]@);
        let t = trim_chars(lines[i].as_slice());
        let ghost prev = out@;
        match frame_of_line_exec(t.as_slice()) {
            Some(f) => {
                out.push(f);
                assert(out@.map_values(|f: SseFrame| frame_view(f)) =~= prev.map_values(
                    |f: SseFrame| frame_view(f),
                ).push(frame_view(out@.last())));
            },
            None => {},
        }
        i = i + 1;
    }
    assert(char_seqs(lines@).subrange(0, lines@.len() as int) =~= char_seqs(lines@));
    out
}

// ---------------------------------------------------------------------------
// Interpreting payloads
// ---------------------------------------------------------------------------

/// A `data:` payload after JSON parsing: `Json(None)` is a payload that was
/// not valid JSON.
#[derive(Debug)]
pub enum SsePayload {
    Done,
    Json(Option<JsonValue>),
}

pub enum PayloadView {
    Done,
    Json(Option<JsonView>),
}

pub open spec fn payload_view(p: SsePayload) -> PayloadView {
    match p {
        SsePayload::Done => PayloadView::Done,
        SsePayload::Json(None) => PayloadView::Json(None),
        SsePayload::Json(Some(v)) => PayloadView::Json(Some(v@)),
    }
}

/// A stream chunk whose tool-call input is still unparsed text.
#[derive(Debug)]
pub enum PendingChunk {
    Text(String),
    Start { id: String, name: String },
    Delta { id: String, arguments: String },
    End { id: String, arguments: String },
    Usage { input_tokens: u32, output_tokens: u32 },
    Done,
}

pub enum PendingView {
    Text(Seq<char>),
    Start(Seq<char>, Seq<char>),
    Delta(Seq<char>, Seq<char>),
    End(Seq<char>, Seq<char>),
    Usage(u32, u32),
    Done,
}

pub open spec fn pending_view(p: PendingChunk) -> PendingView {
    match p {
        PendingChunk::Text(t) => PendingView::Text(t@),
        PendingChunk::Start { id, name } => PendingView::Start(id@, name@),
        PendingChunk::Delta { id, arguments } => PendingView::Delta(id@, arguments@),
        PendingChunk::End { id, arguments } => PendingView::End(id@, arguments@),
        PendingChunk::Usage { input_tokens, output_tokens } => PendingView::Usage(input_tokens, output_tokens),
        PendingChunk::Done => PendingView::Done,
    }
}

pub open spec fn pending_views(s: Seq<PendingChunk>) -> Seq<PendingView> {
    s.map_values(|p: PendingChunk| pending_view(p))
}

/// Whether entry `i` is the first of `s` with key `k`.
pub open spec fn is_first_key(s: Seq<(u64, Seq<char>)>, k: u64, i: int) -> bool {
    0 <= i < s.len() && s[i].0 == k && forall|j: int| 0 <= j < i ==> s[j].0 != k
}

/// The index of the first entry of `s` with key `k`.
pub open spec fn assoc_find(s: Seq<(u64, Seq<char>)>, k: u64) -> Option<int> {
    if exists|i: int| is_first_key(s, k, i) {
        Some(choose|i: int| is_first_key(s, k, i))
    } else {
        None
    }
}

/// The text stored under `k`.
pub open spec fn assoc_get(s: Seq<(u64, Seq<char>)>, k: u64) -> Option<Seq<char>> {
    match assoc_find(s, k) {
        Some(i) => Some(s[i].1),
        None => None,
    }
}

/// `s` with `v` stored under `k`.
pub open spec fn assoc_put(s: Seq<(u64, Seq<char>)>, k: u64, v: Seq<char>) -> Seq<(u64, Seq<char>)> {
    match assoc_find(s, k) {
        Some(i) => s.update(i, (k, v)),
        None => s.push((k, v)),
    }
}

/// `s` with `v` appended to the text under `k` (or stored, when `k` is new).
pub open spec fn assoc_append(s: Seq<(u64, Seq<char>)>, k: u64, v: Seq<char>) -> Seq<(u64, Seq<char>)> {
    match assoc_find(s, k) {
        Some(i) => s.update(i, (k, s[i].1 + v)),
        None => s.push((k, v)),
    }
}

proof fn lemma_first_key_unique(s: Seq<(u64, Seq<char>)>, k: u64, i: int, j: int)
    requires
        is_first_key(s, k, i),
        is_first_key(s, k, j),
    ensures
        i == j,
{
    if i < j {
        assert(s[i].0 != k);
    } else if j < i {
        assert(s[j].0 != k);
    }
}

/// Whether `s` has an entry with key `k`.
pub open spec fn has_entry(s: Seq<(u64, Seq<char>)>, k: u64) -> bool {
    exists|i: int| 0 <= i < s.len() && s[i].0 == k
}

proof fn lemma_assoc_get_first(s: Seq<(u64, Seq<char>)>, k: u64)
    ensures
        has_entry(s, k) <==> assoc_get(s, k) is Some,
        has_entry(s, k) ==> exists|i: int| is_first_key(s, k, i) && assoc_get(s, k) == Some(s[i].1),
    decreases s.len(),
{
    if has_entry(s, k) {
        let i0 = choose|i: int| 0 <= i < s.len() && s[i].0 == k;
        lemma_first_index(s, k, i0);
        let f = choose|i: int| is_first_key(s, k, i);
        assert(is_first_key(s, k, f));
    } else {
        if exists|i: int| is_first_key(s, k, i) {
            let f = choose|i: int| is_first_key(s, k, i);
            assert(0 <= f < s.len() && s[f].0 == k);
        }
    }
}

proof fn lemma_first_index(s: Seq<(u64, Seq<char>)>, k: u64, i0: int)
    requires
        0 <= i0 < s.len(),
        s[i0].0 == k,
    ensures
        exists|i: int| is_first_key(s, k, i),
    decreases i0,
{
    if forall|j: int| 0 <= j < i0 ==> s[j].0 != k {
        assert(is_first_key(s, k, i0));
    } else {
        let j = choose|j: int| 0 <= j < i0 && s[j].0 != k == false;
        lemma_first_index(s, k, j);
    }
}

/// Appending a fragment under a key: the text under that key becomes what it
/// was followed by the fragment (the fragment alone for a new key), and the
/// text under every other key stays as it was.
pub proof fn law_append_accumulates(s: Seq<(u64, Seq<char>)>, k: u64, v: Seq<char>, other: u64)
    requires
        other != k,
    ensures
        assoc_get(assoc_append(s, k, v), k) == Some(
            match assoc_get(s, k) {
                Some(old) => old + v,
                None => v,
            },
        ),
        assoc_get(assoc_append(s, k, v), other) == assoc_get(s, other),
{
    let t = assoc_append(s, k, v);
    lemma_assoc_get_first(s, k);
    lemma_assoc_get_first(s, other);
    match assoc_find(s, k) {
        Some(i) => {
            assert(is_first_key(s, k, i));
            assert(is_first_key(t, k, i));
            lemma_assoc_get_first(t, k);
            let f = choose|j: int| is_first_key(t, k, j) && assoc_get(t, k) == Some(t[j].1);
            lemma_first_key_unique(t, k, f, i);
            assert(forall|j: int| 0 <= j < t.len() ==> (#[trigger] t[j]).0 == s[j].0);
            if has_entry(s, other) {
                let w = choose|j: int| 0 <= j < s.len() && s[j].0 == other;
                assert(t[w].0 == other);
            }
            if has_entry(t, other) {
                let w = choose|j: int| 0 <= j < t.len() && t[j].0 == other;
                assert(s[w].0 == other);
            }
            assert(has_entry(t, other) == has_entry(s, other));
            lemma_assoc_get_first(t, other);
            if has_entry(s, other) {
                let g = choose|j: int| is_first_key(s, other, j) && assoc_get(s, other) == Some(s[j].1);
                let h = choose|j: int| is_first_key(t, other, j) && assoc_get(t, other) == Some(t[j].1);
                assert(is_first_key(t, other, g));
                lemma_first_key_unique(t, other, g, h);
                assert(g != i);
            }
        },
        None => {
            assert(!exists|j: int| is_first_key(s, k, j));
            assert(!has_entry(s, k));
            assert(t == s.push((k, v)));
            assert(is_first_key(t, k, s.len() as int));
            lemma_assoc_get_first(t, k);
            let f = choose|j: int| is_first_key(t, k, j) && assoc_get(t, k) == Some(t[j].1);
            lemma_first_key_unique(t, k, f, s.len() as int);
            if has_entry(s, other) {
                let w = choose|j: int| 0 <= j < s.len() && s[j].0 == other;
                assert(t[w].0 == other);
            }
            if has_entry(t, other) {
                let w = choose|j: int| 0 <= j < t.len() && t[j].0 == other;
                assert(w < s.len());
                assert(s[w].0 == other);
            }
            assert(has_entry(t, other) == has_entry(s, other));
            lemma_assoc_get_first(t, other);
            if has_entry(s, other) {
                let g = choose|j: int| is_first_key(s, other, j) && assoc_get(s, other) == Some(s[j].1);
                let h = choose|j: int| is_first_key(t, other, j) && assoc_get(t, other) == Some(t[j].1);
                assert(is_first_key(t, other, g));
                lemma_first_key_unique(t, other, g, h);
            }
        },
    }
}

/// The state carried through one stream text: the id and the argument text
/// seen for each tool-call index, and the chunks produced so far.
#[verifier::ext_equal]
pub struct SseStateView {
    pub ids: Seq<(u64, Seq<char>)>,
    pub args: Seq<(u64, Seq<char>)>,
    pub out: Seq<PendingView>,
}

/// The id of the tool call at `index`: the one the stream gave, or `tool_<index>`.
pub open spec fn tool_id_for(ids: Seq<(u64, Seq<char>)>, index: u64) -> Seq<char> {
    match assoc_get(ids, index) {
        Some(id) => id,
        None => "tool_"@ + decimal(index as nat),
    }
}

pub open spec fn with_out(st: SseStateView, out: Seq<PendingView>) -> SseStateView {
    SseStateView { ids: st.ids, args: st.args, out }
}

/// One entry of a delta's `tool_calls` array.
pub open spec fn tool_call_step(st: SseStateView, tc: JsonView) -> SseStateView {
    let index: u64 = match spec_get_u64(tc, "index"@) {
        Some(n) => n,
        None => 0,
    };
    match spec_get(tc, "function"@) {
        None => st,
        Some(function) => {
            let id = match spec_get_str(tc, "id"@) {
                Some(s) => s,
                None => Seq::empty(),
            };
            let ids = if id.len() > 0 {
                assoc_put(st.ids, index, id)
            } else {
                st.ids
            };
            let tool_id = tool_id_for(ids, index);
            let out1 = match spec_get_str(function, "name"@) {
                Some(name) => st.out.push(PendingView::Start(tool_id, name)),
                None => st.out,
            };
            match spec_get_str(function, "arguments"@) {
                Some(a) => if a.len() > 0 {
                    SseStateView {
                        ids,
                        args: assoc_append(st.args, index, a),
                        out: out1.push(PendingView::Delta(tool_id, a)),
                    }
                } else {
                    SseStateView { ids, args: st.args, out: out1 }
                },
                None => SseStateView { ids, args: st.args, out: out1 },
            }
        },
    }
}

pub open spec fn fold_tool_calls(st: SseStateView, tcs: Seq<JsonView>) -> SseStateView
    decreases tcs.len(),
{
    if tcs.len() == 0 {
        st
    } else {
        tool_call_step(fold_tool_calls(st, tcs.drop_last()), tcs.last())
    }
}

/// The end chunks for every tool call whose arguments were seen, in the
/// order in which their indices first appeared.
pub open spec fn tool_ends(ids: Seq<(u64, Seq<char>)>, args: Seq<(u64, Seq<char>)>) -> Seq<PendingView> {
    args.map_values(|e: (u64, Seq<char>)| PendingView::End(tool_id_for(ids, e.0), e.1))
}

/// One entry of a payload's `choices` array.
pub open spec fn choice_step(st: SseStateView, choice: JsonView) -> SseStateView {
    let st1 = match spec_get(choice, "delta"@) {
        None => st,
        Some(delta) => {
            let st_a = match spec_get_str(delta, "content"@) {
                Some(c) => if c.len() > 0 {
                    with_out(st, st.out.push(PendingView::Text(c)))
                } else {
                    st
                },
                None => st,
            };
            match spec_get_array(delta, "tool_calls"@) {
                Some(tcs) => fold_tool_calls(st_a, tcs),
                None => st_a,
            }
        },
    };
    match spec_get_str(choice, "finish_reason"@) {
        Some(f) => if f == "tool_calls"@ {
            with_out(st1, st1.out + tool_ends(st1.ids, st1.args))
        } else {
            st1
        },
        None => st1,
    }
}

pub open spec fn fold_choices(st: SseStateView, cs: Seq<JsonView>) -> SseStateView
    decreases cs.len(),
{
    if cs.len() == 0 {
        st
    } else {
        choice_step(fold_choices(st, cs.drop_last()), cs.last())
    }
}

/// The `usage` member of a payload.
pub open spec fn usage_step(st: SseStateView, v: JsonView) -> SseStateView {
    match spec_get(v, "usage"@) {
        None => st,
        Some(u) => {
            let input = match spec_get_u64(u, "prompt_tokens"@) {
                Some(n) => n,
                None => 0,
            } as u32;
            let output = match spec_get_u64(u, "completion_tokens"@) {
                Some(n) => n,
                None => 0,
            } as u32;
            if input > 0 || output > 0 {
                with_out(st, st.out.push(PendingView::Usage(input, output)))
            } else {
                st
            }
        },
    }
}

/// One payload.
pub open spec fn payload_step(st: SseStateView, p: PayloadView) -> SseStateView {
    match p {
        PayloadView::Done => with_out(st, st.out.push(PendingView::Done)),
        PayloadView::Json(None) => st,
        PayloadView::Json(Some(v)) => {
            let st1 = match spec_get_array(v, "choices"@) {
                Some(cs) => fold_choices(st, cs),
                None => st,
            };
            usage_step(st1, v)
        },
    }
}

pub open spec fn fold_payloads(st: SseStateView, ps: Seq<PayloadView>) -> SseStateView
    decreases ps.len(),
{
    if ps.len() == 0 {
        st
    } else {
        payload_step(fold_payloads(st, ps.drop_last()), ps.last())
    }
}

pub open spec fn empty_state() -> SseStateView {
    SseStateView { ids: Seq::empty(), args: Seq::empty(), out: Seq::empty() }
}

/// The chunks that a stream text's payloads yield.
pub open spec fn spec_interpret(ps: Seq<PayloadView>) -> Seq<PendingView> {
    fold_payloads(empty_state(), ps).out
}

struct SseState {
    ids: Vec<(u64, String)>,
    args: Vec<(u64, String)>,
    out: Vec<PendingChunk>,
}

spec fn assoc_view(v: Seq<(u64, String)>) -> Seq<(u64, Seq<char>)> {
    v.map_values(|e: (u64, String)| (e.0, e.1@))
}

spec fn state_view(st: SseState) -> SseStateView {
    SseStateView { ids: assoc_view(st.ids@), args: assoc_view(st.args@), out: pending_views(st.out@) }
}

fn assoc_find_exec(v: &Vec<(u64, String)>, k: u64) -> (r: Option<usize>)
    ensures
        match r {
            Some(i) => assoc_find(assoc_view(v@), k) == Some(i as int),
            None => assoc_find(assoc_view(v@), k) is None,
        },
{
    let ghost s = assoc_view(v@);
    let mut i: usize = 0;
    while i < v.len()
        invariant
            i <= v@.len(),
            s == assoc_view(v@),
            forall|j: int| 0 <= j < i ==> s[j].0 != k,
        decreases v@.len() - i,
    {
        if v[i].0 == k {
            proof {
                assert(is_first_key(s, k, i as int));
                let c = choose|c: int| is_first_key(s, k, c);
                assert(c == i) by {
                    if c < i {
                        assert(s[c].0 != k);
                    } else if c > i {
                        assert(s[i as int].0 != k);
                    }
                }
            }
            return Some(i);
        }
        i = i + 1;
    }
    assert(!exists|c: int| is_first_key(s, k, c));
    None
}

fn tool_id_exec(ids: &Vec<(u64, String)>, index: u64) -> (r: String)
    ensures
        r@ == tool_id_for(assoc_view(ids@), index),
{
    match assoc_find_exec(ids, index) {
        Some(i) => ids[i].1.clone(),
        None => {
            let mut v = chars_of("tool_");
            let d = u64_decimal(index);
            push_all(&mut v, d.as_slice());
            string_from_chars(v.as_slice())
        },
    }
}

fn assoc_put_exec(v: &mut Vec<(u64, String)>, k: u64, val: String)
    ensures
        assoc_view(final(v)@) == assoc_put(assoc_view(old(v)@), k, val@),
{
    match assoc_find_exec(v, k) {
        Some(i) => {
            let ghost before = assoc_view(v@);
            v.set(i, (k, val));
            assert(assoc_view(v@) =~= before.update(i as int, (k, val@)));
        },
        None => {
            let ghost before = assoc_view(v@);
            v.push((k, val));
            assert(assoc_view(v@) =~= before.push((k, val@)));
        },
    }
}

fn assoc_append_exec(v: &mut Vec<(u64, String)>, k: u64, val: &str)
    ensures
        assoc_view(final(v)@) == assoc_append(assoc_view(old(v)@), k, val@),
{
    match assoc_find_exec(v, k) {
        Some(i) => {
            let ghost before = assoc_view(v@);
            let joined = concat_str(v[i].1.as_str(), val);
            v.set(i, (k, joined));
            assert(assoc_view(v@) =~= before.update(i as int, (k, before[i as int].1 + val@)));
        },
        None => {
            let ghost before = assoc_view(v@);
            v.push((k, val.to_owned()));
            assert(assoc_view(v@) =~= before.push((k, val@)));
        },
    }
}

fn push_out(st: &mut SseState, c: PendingChunk)
    ensures
        state_view(*final(st)) == with_out(state_view(*old(st)), state_view(*old(st)).out.push(pending_view(c))),
{
    let ghost before = pending_views(st.out@);
    st.out.push(c);
    assert(pending_views(st.out@) =~= before.push(pending_view(c)));
}

fn tool_call_exec(st: &mut SseState, tc: &JsonValue)
    ensures
        state_view(*final(st)) == tool_call_step(state_view(*old(st)), tc@),
{
    let index: u64 = match tc.get_u64("index") {
        Some(n) => n,
        None => 0,
    };
    let function = match tc.get("function") {
        None => {
            return;
        },
        Some(f) => f,
    };
    let id: &str = match tc.get_str("id") {
        Some(s) => s,
        None => {
            proof {
                reveal_strlit("");
            }
            ""
        },
    };
    if !id.is_empty() {
        assoc_put_exec(&mut st.ids, index, id.to_owned());
    }
    let tool_id = tool_id_exec(&st.ids, index);
    match function.get_str("name") {
        Some(name) => {
            push_out(st, PendingChunk::Start { id: tool_id.clone(), name: name.to_owned() });
        },
        None => {},
    }
    match function.get_str("arguments") {
        Some(a) => {
            if !a.is_empty() {
                assoc_append_exec(&mut st.args, index, a);
                push_out(st, PendingChunk::Delta { id: tool_id, arguments: a.to_owned() });
            }
        },
        None => {},
    }
}

fn emit_tool_ends(st: &mut SseState)
    ensures
        state_view(*final(st)) == with_out(
            state_view(*old(st)),
            state_view(*old(st)).out + tool_ends(state_view(*old(st)).ids, state_view(*old(st)).args),
        ),
{
    let ghost st0 = state_view(*st);
    let mut i: usize = 0;
    while i < st.args.len()
        invariant
            i <= st.args@.len(),
            assoc_view(st.ids@) == st0.ids,
            assoc_view(st.args@) == st0.args,
            pending_views(st.out@) == st0.out + tool_ends(st0.ids, st0.args).subrange(0, i as int),
        decreases st.args@.len() - i,
    {
        let id = tool_id_exec(&st.ids, st.args[i].0);
        let a = st.args[i].1.clone();
        let ghost before = pending_views(st.out@);
        assert(tool_ends(st0.ids, st0.args)[i as int] == PendingView::End(tool_id_for(st0.ids, st0.args[i as int].0), st0.args[i as int].1));
        st.out.push(PendingChunk::End { id, arguments: a });
        assert(pending_views(st.out@) =~= before.push(tool_ends(st0.ids, st0.args)[i as int]));
        assert(pending_views(st.out@) =~= st0.out + tool_ends(st0.ids, st0.args).subrange(0, i + 1));
        i = i + 1;
    }
    assert(tool_ends(st0.ids, st0.args).subrange(0, st0.args.len() as int) =~= tool_ends(st0.ids, st0.args));
}

fn choice_exec(st: &mut SseState, choice: &JsonValue)
    ensures
        state_view(*final(st)) == choice_step(state_view(*old(st)), choice@),
{
    match choice.get("delta") {
        None => {},
        Some(delta) => {
            match delta.get_str("content") {
                Some(c) => {
                    if !c.is_empty() {
                        push_out(st, PendingChunk::Text(c.to_owned()));
                    }
                },
                None => {},
            }
            match delta.get_array("tool_calls") {
                Some(tcs) => {
                    let ghost st_a = state_view(*st);
                    let ghost tv = crate::json::views(tcs@);
                    let mut i: usize = 0;
                    assert(tv.subrange(0, 0) =~= Seq::<JsonView>::empty());
                    while i < tcs.len()
                        invariant
                            i <= tcs@.len(),
                            tv == crate::json::views(tcs@),
                            state_view(*st) == fold_tool_calls(st_a, tv.subrange(0, i as int)),
                        decreases tcs@.len() - i,
                    {
                        assert(tv.subrange(0, i + 1).drop_last() =~= tv.subrange(0, i as int));
                        tool_call_exec(st, &tcs[i]);
                        i = i + 1;
                    }
                    assert(tv.subrange(0, tv.len() as int) =~= tv);
                },
                None => {},
            }
        },
    }
    match choice.get_str("finish_reason") {
        Some(f) => {
            if str_eq(f, "tool_calls") {
                emit_tool_ends(st);
            }
        },
        None => {},
    }
}

fn usage_exec(st: &mut SseState, v: &JsonValue)
    ensures
        state_view(*final(st)) == usage_step(state_view(*old(st)), v@),
{
    match v.get("usage") {
        None => {},
        Some(u) => {
            let input: u64 = match u.get_u64("prompt_tokens") {
                Some(n) => n,
                None => 0,
            };
            let output: u64 = match u.get_u64("completion_tokens") {
                Some(n) => n,
                None => 0,
            };
            let i32v = input as u32;
            let o32v = output as u32;
            if i32v > 0 || o32v > 0 {
                push_out(st, PendingChunk::Usage { input_tokens: i32v, output_tokens: o32v });
            }
        },
    }
}

fn payload_exec(st: &mut SseState, p: &SsePayload)
    ensures
        state_view(*final(st)) == payload_step(state_view(*old(st)), payload_view(*p)),
{
    match p {
        SsePayload::Done => {
            push_out(st, PendingChunk::Done);
        },
        SsePayload::Json(None) => {},
        SsePayload::Json(Some(v)) => {
            match v.get_array("choices") {
                Some(cs) => {
                    let ghost st0 = state_view(*st);
                    let ghost cv = crate::json::views(cs@);
                    let mut i: usize = 0;
                    assert(cv.subrange(0, 0) =~= Seq::<JsonView>::empty());
                    while i < cs.len()
                        invariant
                            i <= cs@.len(),
                            cv == crate::json::views(cs@),
                            state_view(*st) == fold_choices(st0, cv.subrange(0, i as int)),
                        decreases cs@.len() - i,
                    {
                        assert(cv.subrange(0, i + 1).drop_last() =~= cv.subrange(0, i as int));
                        choice_exec(st, &cs[i]);
                        i = i + 1;
                    }
                    assert(cv.subrange(0, cv.len() as int) =~= cv);
                },
                None => {},
            }
            usage_exec(st, v);
        },
    }
}

/// The chunks that a stream text's parsed payloads yield. Tool-call ids are
/// remembered per index; argument text is accumulated per index and handed
/// out, per index in order of first appearance, when a choice finishes with
/// `tool_calls`.
pub fn interpret_payloads(payloads: &Vec<SsePayload>) -> (r: Vec<PendingChunk>)
    ensures
        pending_views(r@) == spec_interpret(payloads@.map_values(|p: SsePayload| payload_view(p))),
{
    let ghost pv = payloads@.map_values(|p: SsePayload| payload_view(p));
    let mut st = SseState { ids: Vec::new(), args: Vec::new(), out: Vec::new() };
    assert(state_view(st) =~= empty_state()) by {
        assert(assoc_view(st.ids@) =~= Seq::<(u64, Seq<char>)>::empty());
        assert(assoc_view(st.args@) =~= Seq::<(u64, Seq<char>)>::empty());
        assert(pending_views(st.out@) =~= Seq::<PendingView>::empty());
    }
    let mut i: usize = 0;
    assert(pv.subrange(0, 0) =~= Seq::<PayloadView>::empty());
    while i < payloads.len()
        invariant
            i <= payloads@.len(),
            pv == payloads@.map_values(|p: SsePayload| payload_view(p)),
            state_view(st) == fold_payloads(empty_state(), pv.subrange(0, i as int)),
        decreases payloads@.len() - i,
    {
        assert(pv.subrange(0, i + 1).drop_last() =~= pv.subrange(0, i as int));
        assert(pv.subrange(0, i + 1).last() == payload_view(payloads@[i as int]));
        payload_exec(&mut st, &payloads[i]);
        i = i + 1;
    }
    assert(pv.subrange(0, pv.len() as int) =~= pv);
    st.out
}

/// The end of the last complete line of `s`: just past its last newline,
/// or 0 when it has none.
pub open spec fn last_line_end(s: Seq<char>) -> int
    decreases s.len(),
{
    if s.len() == 0 {
        0
    } else if s.last() == '\n' {
        s.len() as int
    } else {
        last_line_end(s.drop_last())
    }
}

/// The state to resume interpreting a stream with: the tool-call ids and
/// argument texts seen so far, and no chunks yet.
pub open spec fn resume(ids: Seq<(u64, Seq<char>)>, args: Seq<(u64, Seq<char>)>) -> SseStateView {
    SseStateView { ids, args, out: Seq::empty() }
}

proof fn lemma_frames_concat(a: Seq<Seq<char>>, b: Seq<Seq<char>>)
    ensures
        frames_of_lines(a + b) == frames_of_lines(a) + frames_of_lines(b),
    decreases b.len(),
{
    if b.len() == 0 {
        assert(a + b =~= a);
        assert(frames_of_lines(a) + frames_of_lines(b) =~= frames_of_lines(a));
    } else {
        lemma_frames_concat(a, b.drop_last());
        assert((a + b).drop_last() =~= a + b.drop_last());
        assert((a + b).last() == b.last());
        match frame_of_line(trim(b.last())) {
            Some(f) => {
                assert((frames_of_lines(a) + frames_of_lines(b.drop_last())).push(f) =~= frames_of_lines(a) + frames_of_lines(
                    b.drop_last(),
                ).push(f));
            },
            None => {},
        }
    }
}

/// Splitting a stream text after a newline splits its frames there: the
/// frames of the whole are those of the first part, then those of the rest.
/// So handing out only complete lines, as [`SseDecoder::take_lines`] does,
/// yields the frames of the stream whatever its pieces.
pub proof fn law_frames_split_at_line_end(x: Seq<char>, y: Seq<char>)
    requires
        x.len() == 0 || x.last() == '\n',
    ensures
        spec_frames(x + y) == spec_frames(x) + spec_frames(y),
{
    if x.len() == 0 {
        assert(x + y =~= y);
        reveal_with_fuel(frames_of_lines, 2);
        assert(split_on(x, '\n') =~= seq![Seq::<char>::empty()]);
        assert(trim(Seq::<char>::empty()) =~= Seq::<char>::empty()) by {
            crate::text::lemma_first_non_ws(Seq::<char>::empty());
        }
        assert(spec_frames(x) =~= Seq::<FrameView>::empty());
        assert(spec_frames(x) + spec_frames(y) =~= spec_frames(y));
    } else {
        let a = x.drop_last();
        assert(x =~= a + seq!['\n'] + Seq::<char>::empty());
        assert(x + y =~= a + seq!['\n'] + y);
        crate::paths::lemma_split_concat(a, y, '\n');
        crate::paths::lemma_split_concat(a, Seq::<char>::empty(), '\n');
        assert(split_on(Seq::<char>::empty(), '\n') =~= seq![Seq::<char>::empty()]);
        lemma_frames_concat(split_on(a, '\n'), split_on(y, '\n'));
        lemma_frames_concat(split_on(a, '\n'), seq![Seq::<char>::empty()]);
        reveal_with_fuel(frames_of_lines, 2);
        assert(trim(Seq::<char>::empty()) =~= Seq::<char>::empty()) by {
            crate::text::lemma_first_non_ws(Seq::<char>::empty());
        }
        assert(seq![Seq::<char>::empty()].drop_last() =~= Seq::<Seq<char>>::empty());
        assert(frames_of_lines(seq![Seq::<char>::empty()]) =~= Seq::<FrameView>::empty());
        assert(frames_of_lines(split_on(a, '\n')) + Seq::<FrameView>::empty() =~= frames_of_lines(split_on(a, '\n')));
    }
}

/// `x` with the chunks `p` put before its own.
pub open spec fn shifted(x: SseStateView, p: Seq<PendingView>) -> SseStateView {
    SseStateView { ids: x.ids, args: x.args, out: p + x.out }
}

proof fn lemma_tool_call_shift(x: SseStateView, p: Seq<PendingView>, tc: JsonView)
    ensures
        tool_call_step(shifted(x, p), tc) =~= shifted(tool_call_step(x, tc), p),
{
    assert forall|a: PendingView| (p + x.out).push(a) =~= p + x.out.push(a) by {}
    assert forall|a: PendingView, b: PendingView| (p + x.out).push(a).push(b) =~= p + x.out.push(a).push(b) by {}
}

proof fn lemma_fold_tool_calls_shift(x: SseStateView, p: Seq<PendingView>, tcs: Seq<JsonView>)
    ensures
        fold_tool_calls(shifted(x, p), tcs) =~= shifted(fold_tool_calls(x, tcs), p),
    decreases tcs.len(),
{
    if tcs.len() > 0 {
        lemma_fold_tool_calls_shift(x, p, tcs.drop_last());
        lemma_tool_call_shift(fold_tool_calls(x, tcs.drop_last()), p, tcs.last());
    }
}

proof fn lemma_choice_shift(x: SseStateView, p: Seq<PendingView>, choice: JsonView)
    ensures
        choice_step(shifted(x, p), choice) =~= shifted(choice_step(x, choice), p),
{
    let st_a = match spec_get(choice, "delta"@) {
        None => x,
        Some(delta) => match spec_get_str(delta, "content"@) {
            Some(c) => if c.len() > 0 {
                with_out(x, x.out.push(PendingView::Text(c)))
            } else {
                x
            },
            None => x,
        },
    };
    assert forall|a: PendingView| (p + x.out).push(a) =~= p + x.out.push(a) by {}
    match spec_get(choice, "delta"@) {
        None => {},
        Some(delta) => {
            match spec_get_array(delta, "tool_calls"@) {
                Some(tcs) => {
                    assert(shifted(st_a, p) =~= (match spec_get_str(delta, "content"@) {
                        Some(c) => if c.len() > 0 {
                            with_out(shifted(x, p), shifted(x, p).out.push(PendingView::Text(c)))
                        } else {
                            shifted(x, p)
                        },
                        None => shifted(x, p),
                    }));
                    lemma_fold_tool_calls_shift(st_a, p, tcs);
                },
                None => {},
            }
        },
    }
    assert forall|y: SseStateView, t: Seq<PendingView>| (p + y.out) + t =~= p + (y.out + t) by {}
}

proof fn lemma_fold_choices_shift(x: SseStateView, p: Seq<PendingView>, cs: Seq<JsonView>)
    ensures
        fold_choices(shifted(x, p), cs) =~= shifted(fold_choices(x, cs), p),
    decreases cs.len(),
{
    if cs.len() > 0 {
        lemma_fold_choices_shift(x, p, cs.drop_last());
        lemma_choice_shift(fold_choices(x, cs.drop_last()), p, cs.last());
    }
}

proof fn lemma_payload_shift(x: SseStateView, p: Seq<PendingView>, pv: PayloadView)
    ensures
        payload_step(shifted(x, p), pv) =~= shifted(payload_step(x, pv), p),
{
    assert forall|y: SseStateView, a: PendingView| (p + y.out).push(a) =~= p + y.out.push(a) by {}
    match pv {
        PayloadView::Json(Some(v)) => {
            match spec_get_array(v, "choices"@) {
                Some(cs) => lemma_fold_choices_shift(x, p, cs),
                None => {},
            }
        },
        _ => {},
    }
}

proof fn lemma_fold_payloads_shift(x: SseStateView, p: Seq<PendingView>, ps: Seq<PayloadView>)
    ensures
        fold_payloads(shifted(x, p), ps) =~= shifted(fold_payloads(x, ps), p),
    decreases ps.len(),
{
    if ps.len() > 0 {
        lemma_fold_payloads_shift(x, p, ps.drop_last());
        lemma_payload_shift(fold_payloads(x, ps.drop_last()), p, ps.last());
    }
}

proof fn lemma_fold_payloads_concat(x: SseStateView, a: Seq<PayloadView>, b: Seq<PayloadView>)
    ensures
        fold_payloads(x, a + b) == fold_payloads(fold_payloads(x, a), b),
    decreases b.len(),
{
    if b.len() == 0 {
        assert(a + b =~= a);
    } else {
        lemma_fold_payloads_concat(x, a, b.drop_last());
        assert((a + b).drop_last() =~= a + b.drop_last());
        assert((a + b).last() == b.last());
    }
}

/// Feeding payloads in two pieces gives the chunks of feeding them at once:
/// the chunks of the first piece, then those of the second, which carries on
/// from the tool-call state the first one left.
pub proof fn law_feeding_in_pieces(
    ids: Seq<(u64, Seq<char>)>,
    args: Seq<(u64, Seq<char>)>,
    a: Seq<PayloadView>,
    b: Seq<PayloadView>,
)
    ensures
        ({
            let first = fold_payloads(resume(ids, args), a);
            let second = fold_payloads(resume(first.ids, first.args), b);
            let whole = fold_payloads(resume(ids, args), a + b);
            &&& whole.out == first.out + second.out
            &&& whole.ids == second.ids
            &&& whole.args == second.args
        }),
{
    let first = fold_payloads(resume(ids, args), a);
    lemma_fold_payloads_concat(resume(ids, args), a, b);
    assert(first =~= shifted(resume(first.ids, first.args), first.out)) by {
        assert(first.out + Seq::<PendingView>::empty() =~= first.out);
    }
    lemma_fold_payloads_shift(resume(first.ids, first.args), first.out, b);
}

/// A decoder for one response stream that arrives in pieces: it keeps the
/// text of an unfinished line until the rest of it arrives, and the tool-call
/// state from one piece to the next, so that where the stream is split does
/// not change what it yields.
pub struct SseDecoder {
    carry: Vec<char>,
    state: SseState,
}

impl SseDecoder {
    /// The text of the unfinished line held back.
    pub closed spec fn carried(&self) -> Seq<char> {
        self.carry@
    }

    /// The tool-call ids seen so far, by index.
    pub closed spec fn ids(&self) -> Seq<(u64, Seq<char>)> {
        assoc_view(self.state.ids@)
    }

    /// The tool-call argument texts seen so far, by index.
    pub closed spec fn args(&self) -> Seq<(u64, Seq<char>)> {
        assoc_view(self.state.args@)
    }

    /// A decoder at the start of a stream.
    pub fn new() -> (r: SseDecoder)
        ensures
            r.carried().len() == 0,
            r.ids().len() == 0,
            r.args().len() == 0,
    {
        let d = SseDecoder { carry: Vec::new(), state: SseState { ids: Vec::new(), args: Vec::new(), out: Vec::new() } };
        assert(d.ids() =~= Seq::<(u64, Seq<char>)>::empty());
        assert(d.args() =~= Seq::<(u64, Seq<char>)>::empty());
        d
    }

    /// Adds a piece of the stream and hands out the complete lines held so
    /// far (up to and including the last newline); the rest is held back.
    pub fn take_lines(&mut self, text: &str) -> (r: String)
        ensures
            ({
                let all = old(self).carried() + text@;
                &&& r@ == all.subrange(0, last_line_end(all))
                &&& final(self).carried() == all.subrange(last_line_end(all), all.len() as int)
            }),
            final(self).ids() == old(self).ids(),
            final(self).args() == old(self).args(),
    {
        let ghost all = self.carry@ + text@;
        let tc = chars_of(text);
        let mut cs: Vec<char> = Vec::new();
        std::mem::swap(&mut cs, &mut self.carry);
        push_all(&mut cs, tc.as_slice());
        assert(cs@ =~= all);
        let mut k: usize = cs.len();
        assert(all.subrange(0, k as int) =~= all);
        while k > 0 && cs[k - 1] != '\n'
            invariant
                k <= cs@.len(),
                cs@ == all,
                last_line_end(all) == last_line_end(all.subrange(0, k as int)),
            decreases k,
        {
            assert(all.subrange(0, k as int).drop_last() =~= all.subrange(0, k - 1));
            k = k - 1;
        }
        assert(last_line_end(all) == k) by {
            if k > 0 {
                assert(all.subrange(0, k as int).last() == '\n');
            }
        }
        let head = slice_chars(cs.as_slice(), 0, k);
        self.carry = slice_chars(cs.as_slice(), k, cs.len());
        string_from_chars(head.as_slice())
    }

    /// The chunks that the next parsed payloads yield, carrying on from the
    /// tool-call state of the payloads before them.
    pub fn feed(&mut self, payloads: &Vec<SsePayload>) -> (r: Vec<PendingChunk>)
        ensures
            ({
                let st = fold_payloads(
                    resume(old(self).ids(), old(self).args()),
                    payloads@.map_values(|p: SsePayload| payload_view(p)),
                );
                &&& pending_views(r@) == st.out
                &&& final(self).ids() == st.ids
                &&& final(self).args() == st.args
            }),
            final(self).carried() == old(self).carried(),
    {
        let ghost pv = payloads@.map_values(|p: SsePayload| payload_view(p));
        let ghost start = resume(self.ids(), self.args());
        let mut out: Vec<PendingChunk> = Vec::new();
        std::mem::swap(&mut out, &mut self.state.out);
        assert(state_view(self.state) =~= start) by {
            assert(pending_views(self.state.out@) =~= Seq::<PendingView>::empty());
        }
        let mut i: usize = 0;
        assert(pv.subrange(0, 0) =~= Seq::<PayloadView>::empty());
        while i < payloads.len()
            invariant
                i <= payloads@.len(),
                pv == payloads@.map_values(|p: SsePayload| payload_view(p)),
                state_view(self.state) == fold_payloads(start, pv.subrange(0, i as int)),
                self.carry@ == old(self).carry@,
            decreases payloads@.len() - i,
        {
            assert(pv.subrange(0, i + 1).drop_last() =~= pv.subrange(0, i as int));
            assert(pv.subrange(0, i + 1).last() == payload_view(payloads@[i as int]));
            payload_exec(&mut self.state, &payloads[i]);
            i = i + 1;
        }
        assert(pv.subrange(0, pv.len() as int) =~= pv);
        let ghost fin = state_view(self.state);
        let mut r: Vec<PendingChunk> = Vec::new();
        std::mem::swap(&mut r, &mut self.state.out);
        assert(pending_views(r@) == fin.out);
        assert(self.ids() == fin.ids);
        assert(self.args() == fin.args);
        r
    }
}

// ---------------------------------------------------------------------------
// Finishing
// ---------------------------------------------------------------------------

/// The input of a finished tool call: the parsed arguments, or the raw
/// argument text under `raw_arguments` when it did not parse.
pub open spec fn end_input(arguments: Seq<char>, parsed: Option<JsonView>) -> JsonView {
    match parsed {
        Some(v) => v,
        None => JsonView::Object(seq![("raw_arguments"@, JsonView::Str(arguments))]),
    }
}

/// The final chunk for a pending chunk, given the parse of its argument text.
pub open spec fn finish_one(p: PendingView, parsed: Option<JsonView>) -> ChunkView {
    match p {
        PendingView::Text(t) => ChunkView::TextDelta(t),
        PendingView::Start(id, name) => ChunkView::ToolUseStart(id, name),
        PendingView::Delta(id, a) => ChunkView::ToolUseDelta(id, a),
        PendingView::End(id, a) => ChunkView::ToolUseEnd(id, end_input(a, parsed)),
        PendingView::Usage(i, o) => ChunkView::Usage(i, o),
        PendingView::Done => ChunkView::Done,
    }
}

pub open spec fn parsed_at(parsed: Seq<Option<JsonView>>, i: int) -> Option<JsonView> {
    if 0 <= i < parsed.len() {
        parsed[i]
    } else {
        None
    }
}

pub open spec fn opt_views(s: Seq<Option<JsonValue>>) -> Seq<Option<JsonView>> {
    s.map_values(|o: Option<JsonValue>| match o {
        Some(v) => Some(v@),
        None => None,
    })
}

/// The final chunks: `parsed[i]` is the parse of the argument text of
/// `pending[i]` when that is a finished tool call (missing entries count as
/// text that did not parse). `None` when there are no chunks at all.
pub fn finish_chunks(pending: Vec<PendingChunk>, parsed: Vec<Option<JsonValue>>) -> (r: Option<Vec<ChatResponseChunk>>)
    ensures
        pending@.len() == 0 ==> r is None,
        pending@.len() > 0 ==> r is Some && r->0@.len() == pending@.len() && forall|i: int|
            0 <= i < pending@.len() ==> #[trigger] chunk_view(r->0@[i]) == finish_one(
                pending_view(pending@[i]),
                parsed_at(opt_views(parsed@), i),
            ),
{
    if pending.len() == 0 {
        return None;
    }
    let mut out: Vec<ChatResponseChunk> = Vec::new();
    let mut i: usize = 0;
    let mut pending = pending;
    let mut parsed = parsed;
    let ghost p0 = pending@;
    let ghost q0 = parsed@;
    let n = pending.len();
    while i < n
        invariant
            n == p0.len(),
            i <= n,
            pending@ == p0,
            parsed@ == q0,
            out@.len() == i,
            forall|j: int| 0 <= j < i ==> #[trigger] chunk_view(out@[j]) == finish_one(
                pending_view(p0[j]),
                parsed_at(opt_views(q0), j),
            ),
        decreases n - i,
    {
        let c = match &pending[i] {
            PendingChunk::Text(t) => ChatResponseChunk::TextDelta { text: t.clone() },
            PendingChunk::Start { id, name } => ChatResponseChunk::ToolUseStart { id: id.clone(), name: name.clone() },
            PendingChunk::Delta { id, arguments } => ChatResponseChunk::ToolUseDelta { id: id.clone(), input_delta: arguments.clone() },
            PendingChunk::End { id, arguments } => {
                let input = if i < parsed.len() {
                    match &parsed[i] {
                        Some(v) => v.copy(),
                        None => raw_arguments(arguments.as_str()),
                    }
                } else {
                    raw_arguments(arguments.as_str())
                };
                ChatResponseChunk::ToolUseEnd { id: id.clone(), input }
            },
            PendingChunk::Usage { input_tokens, output_tokens } => ChatResponseChunk::Usage {
                input_tokens: *input_tokens,
                output_tokens: *output_tokens,
            },
            PendingChunk::Done => ChatResponseChunk::Done,
        };
        out.push(c);
        i = i + 1;
    }
    Some(out)
}

fn raw_arguments(arguments: &str) -> (r: JsonValue)
    ensures
        r@ == end_input(arguments@, None),
{
    let mut entries: Vec<(String, JsonValue)> = Vec::new();
    push_member(&mut entries, "raw_arguments", json_str(arguments));
    let r = json_object(entries);
    assert(crate::json::member_views(entries@) =~= seq![("raw_arguments"@, JsonView::Str(arguments@))]);
    r
}

// ---------------------------------------------------------------------------
// Decoding a stream in pieces
// ---------------------------------------------------------------------------

/// What a decoder holds between pieces of a stream: the unfinished line, and
/// the tool-call ids and argument texts seen so far.
#[verifier::ext_equal]
pub struct DecoderView {
    pub carry: Seq<char>,
    pub ids: Seq<(u64, Seq<char>)>,
    pub args: Seq<(u64, Seq<char>)>,
}

/// The payload of a frame, its data read with `parse`.
pub open spec fn frame_payload(f: FrameView, parse: spec_fn(Seq<char>) -> Option<JsonView>) -> PayloadView {
    match f {
        FrameView::Done => PayloadView::Done,
        FrameView::Data(t) => PayloadView::Json(parse(t)),
    }
}

/// The chunk a pending chunk becomes, its argument text read with `parse`.
pub open spec fn finished(p: PendingView, parse: spec_fn(Seq<char>) -> Option<JsonView>) -> ChunkView {
    finish_one(
        p,
        match p {
            PendingView::End(_, a) => parse(a),
            _ => None,
        },
    )
}

/// The chunks that one more piece `text` of a stream completes, and what the
/// decoder holds afterwards, when every JSON text is read with `parse`: the
/// complete lines are framed, the frames read and interpreted from the
/// tool-call state so far, and each pending chunk finished. This is what
/// [`SseDecoder::take_lines`], [`sse_frames`], [`SseDecoder::feed`] and
/// [`finish_chunks`] compute in turn.
pub open spec fn decode_piece(
    d: DecoderView,
    text: Seq<char>,
    parse: spec_fn(Seq<char>) -> Option<JsonView>,
) -> (Seq<ChunkView>, DecoderView) {
    let all = d.carry + text;
    let k = last_line_end(all);
    let frames = spec_frames(all.subrange(0, k));
    let payloads = frames.map_values(|f: FrameView| frame_payload(f, parse));
    let st = fold_payloads(resume(d.ids, d.args), payloads);
    (
        st.out.map_values(|p: PendingView| finished(p, parse)),
        DecoderView { carry: all.subrange(k, all.len() as int), ids: st.ids, args: st.args },
    )
}

proof fn lemma_last_line_end_concat(p: Seq<char>, s: Seq<char>)
    requires
        p.len() == 0 || p.last() == '\n',
    ensures
        last_line_end(p + s) == if last_line_end(s) > 0 {
            p.len() + last_line_end(s)
        } else {
            p.len() as int
        },
    decreases s.len(),
{
    if s.len() == 0 {
        assert(p + s =~= p);
        if p.len() > 0 {
            assert(last_line_end(p) == p.len());
        }
    } else {
        assert((p + s).drop_last() =~= p + s.drop_last());
        assert((p + s).last() == s.last());
        lemma_last_line_end_concat(p, s.drop_last());
    }
}

proof fn lemma_last_line_end_bounds(s: Seq<char>)
    ensures
        0 <= last_line_end(s) <= s.len(),
        last_line_end(s) > 0 ==> s[last_line_end(s) - 1] == '\n',
    decreases s.len(),
{
    if s.len() > 0 && s.last() != '\n' {
        lemma_last_line_end_bounds(s.drop_last());
    }
}

/// Decoding a stream in two pieces gives the chunks of decoding it in one,
/// and leaves the decoder as one piece would, wherever the stream is split
/// and whatever `parse` reads JSON texts as. By induction, any splitting of
/// a stream into pieces yields the same chunks.
pub proof fn law_decoding_in_pieces(
    d: DecoderView,
    x: Seq<char>,
    y: Seq<char>,
    parse: spec_fn(Seq<char>) -> Option<JsonView>,
)
    ensures
        ({
            let (c1, d1) = decode_piece(d, x, parse);
            let (c2, d2) = decode_piece(d1, y, parse);
            let (c, dw) = decode_piece(d, x + y, parse);
            &&& c == c1 + c2
            &&& dw == d2
        }),
{
    let all1 = d.carry + x;
    let k1 = last_line_end(all1);
    let head = all1.subrange(0, k1);
    let carry1 = all1.subrange(k1, all1.len() as int);
    let all2 = carry1 + y;
    let k2 = last_line_end(all2);
    let whole = d.carry + (x + y);
    lemma_last_line_end_bounds(all1);
    lemma_last_line_end_bounds(all2);
    assert(whole =~= head + all2);
    lemma_last_line_end_concat(head, all2);
    let k = last_line_end(whole);
    assert(whole.subrange(0, k) =~= head + all2.subrange(0, k2));
    assert(whole.subrange(k, whole.len() as int) =~= all2.subrange(k2, all2.len() as int));
    law_frames_split_at_line_end(head, all2.subrange(0, k2));
    let f1 = spec_frames(head);
    let f2 = spec_frames(all2.subrange(0, k2));
    let pf = |f: FrameView| frame_payload(f, parse);
    assert((f1 + f2).map_values(pf) =~= f1.map_values(pf) + f2.map_values(pf));
    let st1 = fold_payloads(resume(d.ids, d.args), f1.map_values(pf));
    law_feeding_in_pieces(d.ids, d.args, f1.map_values(pf), f2.map_values(pf));
    let st2 = fold_payloads(resume(st1.ids, st1.args), f2.map_values(pf));
    let fp = |p: PendingView| finished(p, parse);
    assert((st1.out + st2.out).map_values(fp) =~= st1.out.map_values(fp) + st2.out.map_values(fp));
    let (c, dw) = decode_piece(d, x + y, parse);
    let (c2, d2) = decode_piece(DecoderView { carry: carry1, ids: st1.ids, args: st1.args }, y, parse);
    assert(dw =~= d2);
}

} // verus!
