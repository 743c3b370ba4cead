//! Decoding of a streamed (server-sent events) chat completion.
//!
//! The network loop hands each received piece of the byte stream to
//! [`SseDecoder::feed`], which splits it into lines, reads the `data:`
//! events, emits a text chunk for each event that adds text and
//! accumulates tool-call fragments. When an event marks the end, one final
//! chunk carries the finished tool calls and the decoder stops;
//! [`SseDecoder::finish`] flushes the same final chunk when the stream
//! ends without such an event.
use vstd::prelude::*;

use crate::json::{
    array_items, json_array_items, json_as_str, json_as_u64, json_clone, json_empty_object,
    json_get, json_parse, json_str_field, member, member_str, object_of, parsed_document,
    str_or_empty, unsigned_value,
};
use crate::message::ToolCall;
use crate::openai_compat::{call_view, first_choice};
use crate::provider::ChatChunk;
use crate::text::{
    chars_of, concat, decimal, decimal_text, push_all, seq_starts_with, starts_with_chars, str_eq,
    string_from_chars, trim_chars, trim_seq, trim_str,
};

verus! {

/// A tool call being assembled from stream fragments.
#[derive(Debug)]
pub struct PendingCall {
    pub id: String,
    pub name: String,
    pub arguments: String,
}

/// A pending call as (id, name, argument text).
pub open spec fn pending_view(p: PendingCall) -> (Seq<char>, Seq<char>, Seq<char>) {
    (p.id@, p.name@, p.arguments@)
}

/// A chunk as (text delta, finished calls, finished).
pub open spec fn chunk_view(c: ChatChunk) -> (Seq<char>, Seq<(Seq<char>, Seq<char>, serde_json::Value)>, bool) {
    (c.delta@, c.tool_calls@.map_values(|t: ToolCall| call_view(t)), c.finished)
}

/// The slot a fragment goes to (`index`, zero when absent).
pub open spec fn call_index(c: serde_json::Value) -> int {
    let n: u64 = match member(c, "index"@) {
        Some(v) => match unsigned_value(v) {
            Some(n) => n,
            None => 0,
        },
        None => 0,
    };
    (n as usize) as int
}

/// The calls grown with empty slots so that slot `index` exists.
pub open spec fn pad_calls(p: Seq<(Seq<char>, Seq<char>, Seq<char>)>, index: int) -> Seq<
    (Seq<char>, Seq<char>, Seq<char>),
> {
    if p.len() > index {
        p
    } else {
        p + Seq::new((index + 1 - p.len()) as nat, |i: int| (seq![], seq![], seq![]))
    }
}

/// The text of member `key` of the fragment's `function` object, if any.
pub open spec fn function_part(c: serde_json::Value, key: Seq<char>) -> Seq<char> {
    match member(c, "function"@) {
        Some(f) => str_or_empty(f, key),
        None => seq![],
    }
}

/// A slot after one fragment: a new id replaces the old one, name and
/// argument texts are appended.
pub open spec fn merge_fragment(slot: (Seq<char>, Seq<char>, Seq<char>), c: serde_json::Value) -> (
    Seq<char>,
    Seq<char>,
    Seq<char>,
) {
    (
        match member_str(c, "id"@) {
            Some(id) => id,
            None => slot.0,
        },
        slot.1 + function_part(c, "name"@),
        slot.2 + function_part(c, "arguments"@),
    )
}

/// The calls after one fragment.
pub open spec fn apply_fragment(p: Seq<(Seq<char>, Seq<char>, Seq<char>)>, c: serde_json::Value) -> Seq<
    (Seq<char>, Seq<char>, Seq<char>),
> {
    let q = pad_calls(p, call_index(c));
    q.update(call_index(c), merge_fragment(q[call_index(c)], c))
}

/// The calls after a list of fragments, in order.
pub open spec fn apply_fragments(
    p: Seq<(Seq<char>, Seq<char>, Seq<char>)>,
    fragments: Seq<serde_json::Value>,
) -> Seq<(Seq<char>, Seq<char>, Seq<char>)>
    decreases fragments.len(),
{
    if fragments.len() == 0 {
        p
    } else {
        apply_fragment(apply_fragments(p, fragments.drop_last()), fragments.last())
    }
}

/// The `delta` of the first choice.
pub open spec fn event_delta(event: serde_json::Value) -> Option<serde_json::Value> {
    match first_choice(event) {
        Some(c) => member(c, "delta"@),
        None => None,
    }
}

/// The first choice carries a textual `finish_reason`.
pub open spec fn has_finish_reason(event: serde_json::Value) -> bool {
    match first_choice(event) {
        Some(c) => member_str(c, "finish_reason"@) is Some,
        None => false,
    }
}

/// The tool-call fragments of a delta.
pub open spec fn delta_fragments(delta: serde_json::Value) -> Seq<serde_json::Value> {
    match member(delta, "tool_calls"@) {
        Some(t) => match array_items(t) {
            Some(items) => items,
            None => seq![],
        },
        None => seq![],
    }
}

/// One event's effect: the text it adds, the calls after it, and whether
/// it ends the stream. `[DONE]` ends it; text that is not JSON is
/// ignored; an event without a delta ends the stream when it has
/// `choices` (usage-only final events).
pub open spec fn event_effect(data: Seq<char>, pending: Seq<(Seq<char>, Seq<char>, Seq<char>)>) -> (
    Seq<char>,
    Seq<(Seq<char>, Seq<char>, Seq<char>)>,
    bool,
) {
    if trim_seq(data) == "[DONE]"@ {
        (seq![], pending, true)
    } else {
        match parsed_document(data) {
            None => (seq![], pending, false),
            Some(event) => match event_delta(event) {
                None => (seq![], pending, member(event, "choices"@) is Some),
                Some(delta) => (
                    str_or_empty(delta, "content"@),
                    apply_fragments(pending, delta_fragments(delta)),
                    has_finish_reason(event),
                ),
            },
        }
    }
}

/// The event payload of a line: the trimmed text after `data:`, when the
/// trimmed line starts with it and the payload is not empty.
pub open spec fn line_payload(line: Seq<char>) -> Option<Seq<char>> {
    let l = trim_seq(line);
    if seq_starts_with(l, "data:"@) && trim_seq(l.skip(5)).len() > 0 {
        Some(trim_seq(l.skip(5)))
    } else {
        None
    }
}

/// A finished call from slot `i`: dropped without a name; a missing id
/// reads `call-{i}`; argument text that is not JSON reads as `{}`.
pub open spec fn finish_slot(i: int, p: (Seq<char>, Seq<char>, Seq<char>)) -> Option<
    (Seq<char>, Seq<char>, serde_json::Value),
> {
    if p.1.len() == 0 {
        None
    } else {
        Some(
            (
                if p.0.len() == 0 {
                    "call-"@ + decimal(i as nat)
                } else {
                    p.0
                },
                p.1,
                match parsed_document(p.2) {
                    Some(v) => v,
                    None => object_of(seq![]),
                },
            ),
        )
    }
}

/// The finished calls of the first `n` slots, in slot order.
pub open spec fn finished_calls(p: Seq<(Seq<char>, Seq<char>, Seq<char>)>, n: int) -> Seq<
    (Seq<char>, Seq<char>, serde_json::Value),
>
    decreases n,
{
    if n <= 0 {
        seq![]
    } else {
        match finish_slot(n - 1, p[n - 1]) {
            Some(c) => finished_calls(p, n - 1).push(c),
            None => finished_calls(p, n - 1),
        }
    }
}

/// The decoder's state, as plain values.
pub struct DecoderState {
    pub buffer: Seq<char>,
    pub pending: Seq<(Seq<char>, Seq<char>, Seq<char>)>,
    pub chunks: Seq<(Seq<char>, Seq<(Seq<char>, Seq<char>, serde_json::Value)>, bool)>,
    pub done: bool,
}

/// The final chunk for these calls.
pub open spec fn final_chunk(p: Seq<(Seq<char>, Seq<char>, Seq<char>)>) -> (
    Seq<char>,
    Seq<(Seq<char>, Seq<char>, serde_json::Value)>,
    bool,
) {
    (seq![], finished_calls(p, p.len() as int), true)
}

/// The state after one complete line (the buffer is left as it is).
pub open spec fn after_line(st: DecoderState, line: Seq<char>) -> DecoderState {
    match line_payload(line) {
        None => st,
        Some(data) => {
            let (text, pending, finished) = event_effect(data, st.pending);
            let chunks = if text.len() > 0 {
                st.chunks.push((text, seq![], false))
            } else {
                st.chunks
            };
            if finished {
                DecoderState {
                    buffer: st.buffer,
                    pending: seq![],
                    chunks: chunks.push(final_chunk(pending)),
                    done: true,
                }
            } else {
                DecoderState { buffer: st.buffer, pending, chunks, done: false }
            }
        },
    }
}

/// Position of the first line feed.
pub open spec fn newline_at(s: Seq<char>) -> Option<int>
    decreases s.len(),
{
    if s.len() == 0 {
        None
    } else if s[0] == '\n' {
        Some(0)
    } else {
        match newline_at(s.drop_first()) {
            Some(i) => Some(i + 1),
            None => None,
        }
    }
}

/// The state once every complete buffered line has been read, stopping at
/// the end of the stream.
pub open spec fn drain_lines(st: DecoderState) -> DecoderState
    decreases st.buffer.len(),
{
    if st.done {
        st
    } else {
        match newline_at(st.buffer) {
            None => st,
            Some(pos) => if 0 <= pos < st.buffer.len() {
                let rest = DecoderState {
                    buffer: st.buffer.skip(pos + 1),
                    pending: st.pending,
                    chunks: st.chunks,
                    done: st.done,
                };
                drain_lines(after_line(rest, st.buffer.take(pos + 1)))
            } else {
                st
            },
        }
    }
}

/// Characters of a byte string, invalid sequences replaced by U+FFFD.
pub uninterp spec fn lossy_text(bytes: Seq<u8>) -> Seq<char>;

/// `String::from_utf8_lossy`, owned. Claimed: the text is `lossy_text` of
/// the bytes.
#[verifier::external_body]
fn utf8_lossy(bytes: &[u8]) -> (r: String)
    ensures
        r@ == lossy_text(bytes@),
{
    String::from_utf8_lossy(bytes).into_owned()
}

/// Stream decoder for OpenAI-style `chat/completions` SSE replies.
#[derive(Debug)]
pub struct SseDecoder {
    buffer: Vec<char>,
    pending: Vec<PendingCall>,
    chunks: Vec<ChatChunk>,
    done: bool,
}

impl SseDecoder {
    /// The decoder's state.
    pub closed spec fn state(&self) -> DecoderState {
        DecoderState {
            buffer: self.buffer@,
            pending: self.pending@.map_values(|p: PendingCall| pending_view(p)),
            chunks: self.chunks@.map_values(|c: ChatChunk| chunk_view(c)),
            done: self.done,
        }
    }

    /// A decoder that has seen nothing.
    pub fn new() -> (r: Self)
        ensures
            r.state().buffer.len() == 0,
            r.state().pending.len() == 0,
            r.state().chunks.len() == 0,
            !r.state().done,
    {
        SseDecoder { buffer: Vec::new(), pending: Vec::new(), chunks: Vec::new(), done: false }
    }

    /// Hands out the chunks decoded so far, in order, and forgets them;
    /// the rest of the decoder's state is kept.
    pub fn take_ready(&mut self) -> (r: Vec<ChatChunk>)
        ensures
            r@.map_values(|c: ChatChunk| chunk_view(c)) == old(self).state().chunks,
            final(self).state().chunks.len() == 0,
            final(self).state().buffer == old(self).state().buffer,
            final(self).state().pending == old(self).state().pending,
            final(self).state().done == old(self).state().done,
    {
        let mut out: Vec<ChatChunk> = Vec::new();
        std::mem::swap(&mut out, &mut self.chunks);
        assert(self.chunks@.map_values(|c: ChatChunk| chunk_view(c)) =~= Seq::empty());
        out
    }

    /// Whether an event has ended the stream.
    pub fn is_done(&self) -> (r: bool)
        ensures
            r == self.state().done,
    {
        self.done
    }

    /// Takes in the next piece of the byte stream and reads every line it
    /// completes. Nothing changes once the stream has ended.
    pub fn feed(&mut self, bytes: &[u8])
        ensures
            old(self).state().done ==> final(self).state() == old(self).state(),
            !old(self).state().done ==> final(self).state() == drain_lines(
                DecoderState {
                    buffer: old(self).state().buffer + lossy_text(bytes@),
                    pending: old(self).state().pending,
                    chunks: old(self).state().chunks,
                    done: false,
                },
            ),
    {
        if self.done {
            return;
        }
        let text = utf8_lossy(bytes);
        let more = chars_of(text.as_str());
        push_all(&mut self.buffer, &more);
        let ghost start = self.state();
        assert(start == (DecoderState {
            buffer: old(self).state().buffer + lossy_text(bytes@),
            pending: old(self).state().pending,
            chunks: old(self).state().chunks,
            done: false,
        }));
        loop
            invariant
                !old(self).state().done,
                start == (DecoderState {
                    buffer: old(self).state().buffer + lossy_text(bytes@),
                    pending: old(self).state().pending,
                    chunks: old(self).state().chunks,
                    done: false,
                }),
                drain_lines(self.state()) == drain_lines(start),
            ensures
                self.state() == drain_lines(start),
            decreases self.buffer@.len(),
        {
            if self.done {
                return;
            }
            let pos = match first_newline(&self.buffer) {
                Some(p) => p,
                None => {
                    return;
                },
            };
            let ghost before = self.state();
            let mut line: Vec<char> = Vec::new();
            let mut rest: Vec<char> = Vec::new();
            let mut i: usize = 0;
            while i < self.buffer.len()
                invariant
                    pos < self.buffer@.len(),
                    i <= self.buffer@.len(),
                    i <= pos + 1 ==> line@ == self.buffer@.take(i as int) && rest@.len() == 0,
                    i > pos + 1 ==> line@ == self.buffer@.take(pos + 1) && rest@
                        == self.buffer@.subrange(pos + 1, i as int),
                decreases self.buffer.len() - i,
            {
                if i <= pos {
                    line.push(self.buffer[i]);
                } else {
                    rest.push(self.buffer[i]);
                }
                proof {
                    if i + 1 <= pos + 1 {
                        assert(self.buffer@.take(i + 1) =~= self.buffer@.take(i as int).push(
                            self.buffer@[i as int],
                        ));
                    } else if i == pos + 1 {
                        assert(rest@ =~= self.buffer@.subrange(pos + 1, i + 1));
                    } else {
                        assert(rest@ =~= self.buffer@.subrange(pos + 1, i + 1));
                    }
                }
                i = i + 1;
            }
            assert(rest@ =~= self.buffer@.skip(pos + 1));
            self.buffer = rest;
            assert(self.state() == (DecoderState {
                buffer: before.buffer.skip(pos + 1),
                pending: before.pending,
                chunks: before.chunks,
                done: before.done,
            }));
            self.read_line(&line);
        }
    }

    /// Reads one complete line (the buffer has already moved past it).
    fn read_line(&mut self, line: &Vec<char>)
        requires
            !old(self).state().done,
        ensures
            final(self).state() == after_line(old(self).state(), line@),
    {
        let l = trim_chars(line);
        let prefix = chars_of("data:");
        proof {
            reveal_strlit("data:");
        }
        if !starts_with_chars(&l, &prefix) {
            return;
        }
        let mut payload_raw: Vec<char> = Vec::new();
        let mut i: usize = 5;
        while i < l.len()
            invariant
                5 <= i <= l@.len(),
                payload_raw@ == l@.subrange(5, i as int),
            decreases l.len() - i,
        {
            payload_raw.push(l[i]);
            i = i + 1;
            assert(payload_raw@ =~= l@.subrange(5, i as int));
        }
        assert(payload_raw@ =~= l@.skip(5));
        let payload = trim_chars(&payload_raw);
        if payload.len() == 0 {
            return;
        }
        let data = string_from_chars(&payload);
        let ghost st0 = self.state();
        assert(line_payload(line@) == Some(data@));
        let (text, finished) = self.apply_event(data.as_str());
        let ghost st1 = self.state();
        let ghost chunks1 = if text@.len() > 0 {
            st0.chunks.push((text@, seq![], false))
        } else {
            st0.chunks
        };
        if text.len() > 0 {
            let chunk = ChatChunk { delta: string_from_chars(&text), tool_calls: Vec::new(), finished: false };
            self.chunks.push(chunk);
            assert(chunk_view(chunk) == (text@, Seq::<(Seq<char>, Seq<char>, serde_json::Value)>::empty(), false));
            assert(self.state().chunks =~= chunks1);
        }
        if finished {
            let calls = self.finish_calls();
            self.pending = Vec::new();
            let last = ChatChunk { delta: String::new(), tool_calls: calls, finished: true };
            self.chunks.push(last);
            self.done = true;
            assert(chunk_view(last) == final_chunk(st1.pending));
            assert(self.state().chunks =~= chunks1.push(final_chunk(st1.pending)));
            assert(self.state().pending =~= Seq::<(Seq<char>, Seq<char>, Seq<char>)>::empty());
            assert(self.state() == (DecoderState {
                buffer: st0.buffer,
                pending: seq![],
                chunks: chunks1.push(final_chunk(st1.pending)),
                done: true,
            }));
        } else {
            assert(self.state() == (DecoderState {
                buffer: st0.buffer,
                pending: st1.pending,
                chunks: chunks1,
                done: false,
            }));
        }
    }
}

impl SseDecoder {
    /// Applies one event payload to the pending calls; returns the text it
    /// adds and whether it ends the stream.
    fn apply_event(&mut self, data: &str) -> (r: (Vec<char>, bool))
        ensures
            (r.0@, final(self).state().pending, r.1) == event_effect(data@, old(self).state().pending),
            final(self).state().buffer == old(self).state().buffer,
            final(self).state().chunks == old(self).state().chunks,
            final(self).state().done == old(self).state().done,
    {
        let t = trim_str(data);
        if str_eq(t.as_str(), "[DONE]") {
            return (Vec::new(), true);
        }
        let event = match json_parse(data) {
            Some(e) => e,
            None => {
                return (Vec::new(), false);
            },
        };
        let mut delta: Option<serde_json::Value> = None;
        let mut finished = false;
        match json_get(&event, "choices") {
            Some(c) => match json_array_items(c) {
                Some(items) => {
                    if items.len() > 0 {
                        match json_get(&items[0], "delta") {
                            Some(d) => {
                                delta = Some(json_clone(d));
                            },
                            None => {},
                        }
                        match json_get(&items[0], "finish_reason") {
                            Some(f) => {
                                finished = json_as_str(f).is_some();
                            },
                            None => {},
                        }
                    }
                },
                None => {},
            },
            None => {},
        }
        assert(delta == event_delta(event));
        assert(finished == has_finish_reason(event));
        let delta = match delta {
            Some(d) => d,
            None => {
                let has_choices = json_get(&event, "choices").is_some();
                return (Vec::new(), has_choices);
            },
        };
        let content = match json_get(&delta, "content") {
            Some(v) => match json_as_str(v) {
                Some(s) => chars_of(s.as_str()),
                None => Vec::new(),
            },
            None => Vec::new(),
        };
        assert(content@ == str_or_empty(delta, "content"@));
        let fragments = match json_get(&delta, "tool_calls") {
            Some(t) => match json_array_items(t) {
                Some(items) => items,
                None => Vec::new(),
            },
            None => Vec::new(),
        };
        assert(fragments@ == delta_fragments(delta));
        let ghost orig = self.state().pending;
        let mut k: usize = 0;
        assert(fragments@.take(0) =~= Seq::<serde_json::Value>::empty());
        while k < fragments.len()
            invariant
                k <= fragments@.len(),
                self.state().pending == apply_fragments(orig, fragments@.take(k as int)),
                self.state().buffer == old(self).state().buffer,
                self.state().chunks == old(self).state().chunks,
                self.state().done == old(self).state().done,
            decreases fragments.len() - k,
        {
            proof {
                assert(fragments@.take(k + 1).drop_last() =~= fragments@.take(k as int));
                assert(fragments@.take(k + 1).last() == fragments@[k as int]);
            }
            self.apply_fragment(&fragments[k]);
            k = k + 1;
        }
        assert(fragments@.take(fragments@.len() as int) =~= fragments@);
        (content, finished)
    }

    /// Merges one tool-call fragment into its slot.
    fn apply_fragment(&mut self, c: &serde_json::Value)
        ensures
            final(self).state().pending == apply_fragment(old(self).state().pending, *c),
            final(self).state().buffer == old(self).state().buffer,
            final(self).state().chunks == old(self).state().chunks,
            final(self).state().done == old(self).state().done,
    {
        let n: u64 = match json_get(c, "index") {
            Some(v) => match json_as_u64(v) {
                Some(n) => n,
                None => 0,
            },
            None => 0,
        };
        let index = n as usize;
        assert(index as int == call_index(*c));
        let ghost orig = self.state().pending;
        while self.pending.len() <= index
            invariant
                self.state().pending =~= orig + Seq::new(
                    (self.pending@.len() - orig.len()) as nat,
                    |i: int| (Seq::<char>::empty(), Seq::<char>::empty(), Seq::<char>::empty()),
                ),
                orig.len() <= self.pending@.len(),
                orig.len() > index ==> self.pending@.len() == orig.len(),
                self.pending@.len() <= orig.len() || self.pending@.len() <= index + 1,
                orig == old(self).state().pending,
                self.state().buffer == old(self).state().buffer,
                self.state().chunks == old(self).state().chunks,
                self.state().done == old(self).state().done,
            decreases index + 1 - self.pending.len(),
        {
            let ghost before = self.state().pending;
            let fresh = PendingCall { id: String::new(), name: String::new(), arguments: String::new() };
            self.pending.push(fresh);
            assert(pending_view(fresh) == (Seq::<char>::empty(), Seq::<char>::empty(), Seq::<char>::empty()));
            assert(self.state().pending =~= before.push(pending_view(fresh)));
        }
        assert(self.state().pending =~= pad_calls(orig, index as int));
        let slot = &self.pending[index];
        let id = match json_str_field(c, "id") {
            Some(id) => id,
            None => slot.id.clone(),
        };
        let (name_part, args_part) = match json_get(c, "function") {
            Some(f) => (
                match json_str_field(f, "name") {
                    Some(x) => x,
                    None => String::new(),
                },
                match json_str_field(f, "arguments") {
                    Some(x) => x,
                    None => String::new(),
                },
            ),
            None => (String::new(), String::new()),
        };
        assert(name_part@ == function_part(*c, "name"@));
        assert(args_part@ == function_part(*c, "arguments"@));
        let merged = PendingCall {
            id,
            name: concat(slot.name.as_str(), name_part.as_str()),
            arguments: concat(slot.arguments.as_str(), args_part.as_str()),
        };
        assert(pending_view(merged) == merge_fragment(pad_calls(orig, index as int)[index as int], *c));
        let ghost padded = self.pending@;
        self.pending.set(index, merged);
        assert(self.state().pending =~= pad_calls(orig, index as int).update(
            index as int,
            pending_view(merged),
        ));
    }

    /// The finished calls of every slot.
    fn finish_calls(&self) -> (r: Vec<ToolCall>)
        ensures
            r@.map_values(|t: ToolCall| call_view(t)) == finished_calls(
                self.state().pending,
                self.state().pending.len() as int,
            ),
    {
        let mut out: Vec<ToolCall> = Vec::new();
        let mut k: usize = 0;
        assert(out@.map_values(|t: ToolCall| call_view(t)) =~= finished_calls(self.state().pending, 0));
        while k < self.pending.len()
            invariant
                k <= self.pending@.len(),
                out@.map_values(|t: ToolCall| call_view(t)) == finished_calls(
                    self.state().pending,
                    k as int,
                ),
            decreases self.pending.len() - k,
        {
            let p = &self.pending[k];
            let ghost before = out@;
            assert(self.state().pending[k as int] == pending_view(*p));
            assert(finished_calls(self.state().pending, k + 1) == match finish_slot(
                k as int,
                pending_view(*p),
            ) {
                Some(c) => finished_calls(self.state().pending, k as int).push(c),
                None => finished_calls(self.state().pending, k as int),
            });
            if !p.name.as_str().is_empty() {
                let id = if p.id.as_str().is_empty() {
                    let digits = decimal_text(k);
                    concat("call-", digits.as_str())
                } else {
                    p.id.clone()
                };
                let arguments = match json_parse(p.arguments.as_str()) {
                    Some(v) => v,
                    None => json_empty_object(),
                };
                let call = ToolCall::new(id, p.name.clone(), arguments);
                out.push(call);
                assert(out@.map_values(|t: ToolCall| call_view(t)) =~= before.map_values(
                    |t: ToolCall| call_view(t),
                ).push(call_view(call)));
            }
            k = k + 1;
        }
        out
    }

    /// The chunks of the whole reply: when the stream ended without a
    /// closing event, a final chunk with the calls assembled so far is
    /// added.
    pub fn finish(self) -> (r: Vec<ChatChunk>)
        ensures
            self.state().done ==> r@.map_values(|c: ChatChunk| chunk_view(c)) == self.state().chunks,
            !self.state().done ==> r@.map_values(|c: ChatChunk| chunk_view(c))
                == self.state().chunks.push(final_chunk(self.state().pending)),
    {
        if self.done {
            return self.chunks;
        }
        let calls = self.finish_calls();
        let mut chunks = self.chunks;
        let ghost before = chunks@;
        let last = ChatChunk { delta: String::new(), tool_calls: calls, finished: true };
        chunks.push(last);
        proof {
            assert(chunk_view(last) == final_chunk(self.state().pending));
            assert(chunks@.map_values(|c: ChatChunk| chunk_view(c)) =~= before.map_values(
                |c: ChatChunk| chunk_view(c),
            ).push(chunk_view(last)));
        }
        chunks
    }
}

/// Where the first line feed of `s` is, once its first `i` characters are
/// known not to be one.
proof fn lemma_newline_after(s: Seq<char>, i: int)
    requires
        0 <= i <= s.len(),
        forall|j: int| 0 <= j < i ==> s[j] != '\n',
    ensures
        newline_at(s) == match newline_at(s.skip(i)) {
            Some(k) => Some(k + i),
            None => None::<int>,
        },
    decreases i,
{
    if i == 0 {
        assert(s.skip(0) =~= s);
        match newline_at(s) {
            Some(k) => {},
            None => {},
        }
    } else {
        lemma_newline_after(s.drop_first(), i - 1);
        assert(s.drop_first().skip(i - 1) =~= s.skip(i));
    }
}

/// Position of the first line feed in `s`.
fn first_newline(s: &Vec<char>) -> (r: Option<usize>)
    ensures
        match r {
            Some(p) => newline_at(s@) == Some(p as int) && p < s@.len(),
            None => newline_at(s@) is None,
        },
{
    let mut i: usize = 0;
    while i < s.len()
        invariant
            i <= s@.len(),
            forall|j: int| 0 <= j < i ==> s@[j] != '\n',
        decreases s.len() - i,
    {
        if s[i] == '\n' {
            proof {
                lemma_newline_after(s@, i as int);
                assert(s@.skip(i as int)[0] == '\n');
            }
            return Some(i);
        }
        i = i + 1;
    }
    proof {
        lemma_newline_after(s@, i as int);
        assert(s@.skip(i as int).len() == 0);
    }
    None
}

/// Number of slots among the first `n` that carry a function name.
pub open spec fn named_slot_count(p: Seq<(Seq<char>, Seq<char>, Seq<char>)>, n: int) -> nat
    decreases n,
{
    if n <= 0 {
        0
    } else {
        named_slot_count(p, n - 1) + if p[n - 1].1.len() > 0 {
            1nat
        } else {
            0nat
        }
    }
}

/// Counting named slots over a longer prefix never gives fewer.
proof fn lemma_named_slot_count_grows(p: Seq<(Seq<char>, Seq<char>, Seq<char>)>, k: int, n: int)
    requires
        0 <= k <= n,
    ensures
        named_slot_count(p, k) <= named_slot_count(p, n),
    decreases n - k,
{
    if k < n {
        lemma_named_slot_count_grows(p, k, n - 1);
    }
}

/// The finished calls keep every pending slot that has a function name,
/// and only those, in slot order: there are as many calls as named slots,
/// and the named slot `k` gives the call at its rank among named slots,
/// with the slot's name, its id (`call-{k}` when it has none) and, when
/// its argument text is JSON, the document it parses to.
pub proof fn law_finished_calls_keep_every_named_slot(p: Seq<(Seq<char>, Seq<char>, Seq<char>)>, n: int)
    requires
        0 <= n <= p.len(),
    ensures
        finished_calls(p, n).len() == named_slot_count(p, n),
        forall|k: int|
            0 <= k < n && (#[trigger] p[k]).1.len() > 0 ==> {
                let c = finished_calls(p, n)[named_slot_count(p, k) as int];
                &&& c.1 == p[k].1
                &&& c.0 == (if p[k].0.len() == 0 {
                    "call-"@ + decimal(k as nat)
                } else {
                    p[k].0
                })
                &&& (parsed_document(p[k].2) matches Some(v) ==> c.2 == v)
            },
    decreases n,
{
    if n > 0 {
        law_finished_calls_keep_every_named_slot(p, n - 1);
        let prev = finished_calls(p, n - 1);
        assert forall|k: int| 0 <= k < n && (#[trigger] p[k]).1.len() > 0 implies {
            let c = finished_calls(p, n)[named_slot_count(p, k) as int];
            &&& c.1 == p[k].1
            &&& c.0 == (if p[k].0.len() == 0 {
                "call-"@ + decimal(k as nat)
            } else {
                p[k].0
            })
            &&& (parsed_document(p[k].2) matches Some(v) ==> c.2 == v)
        } by {
            if k < n - 1 {
                lemma_named_slot_count_grows(p, k + 1, n - 1);
                assert(named_slot_count(p, k + 1) == named_slot_count(p, k) + 1);
                assert(finished_calls(p, n)[named_slot_count(p, k) as int] == prev[named_slot_count(
                    p,
                    k,
                ) as int]);
            }
        }
    }
}

} // verus!
