//! Noxis Core, the language-model client: endpoint and prompt assembly,
//! reply extraction, and the decoder of streamed (server-sent event) replies.
//!
//! The model is reached over an OpenAI-style `POST {base}/v1/chat/completions`
//! endpoint; `base` may be given with or without a trailing `/v1`. The
//! request itself is sent by the application.

use crate::config::LlmConfig;
use crate::error::AnubisError;
use crate::memory::{turn_texts, Turn};
use crate::text::{
    chars_of, has_prefix, has_suffix, is_blank, push_str, str_eq, string_of, strip_prefix_all,
    strip_prefixes, starts_with, ends_with, to_owned, trim, trimmed,
};
use vstd::prelude::*;
use vstd::utf8::{decode_utf8, encode_utf8, valid_utf8};
use crate::json::{at, deref_opt, get, json_document_of, json_parse, text, text_of, value_at_index, value_at_key, JsonValue};

verus! {

/// The instructions added to the system prompt in teacher mode.
pub const TEACHER_PROMPT: &'static str = "You are a patient, expert teacher. Adapt your teaching to the student:\n- EXPLAIN: Break down concepts clearly with examples in the student's language\n- SOCRATIC: Ask guiding questions to help them discover answers\n- PRACTICE: Give exercises, quizzes, or problems appropriate to their level\n- FEEDBACK: Correct mistakes constructively, explain WHY it's wrong\n- ENCOURAGE: Celebrate progress, normalize struggle, growth mindset\n- ADAPT: Detect their level; simplify if lost, deepen if bored\n- STRUCTURE: Use clear steps, summaries, and check understanding\nNever just give answers — guide them to learn.";

/// `s` without its trailing copies of `c`.
pub open spec fn strip_trailing(s: Seq<char>, c: char) -> Seq<char>
    decreases s.len(),
{
    if s.len() > 0 && s.last() == c {
        strip_trailing(s.drop_last(), c)
    } else {
        s
    }
}

/// The base URL without trailing slashes.
pub fn normalize_base(base: &str) -> (r: String)
    ensures
        r@ == strip_trailing(base@, '/'),
{
    let v = chars_of(base);
    let mut n = v.len();
    assert(v@.subrange(0, n as int) =~= v@);
    while n > 0 && v[n - 1] == '/'
        invariant
            n <= v@.len(),
            v@ == base@,
            strip_trailing(base@, '/') == strip_trailing(v@.subrange(0, n as int), '/'),
        decreases n,
    {
        assert(v@.subrange(0, n as int).drop_last() =~= v@.subrange(0, n - 1));
        n = n - 1;
    }
    string_of(&v, 0, n)
}

/// The chat-completions URL for a base URL given with or without `/v1`.
pub open spec fn chat_url_of(base: Seq<char>) -> Seq<char> {
    let b = strip_trailing(base, '/');
    if has_suffix(b, "/v1"@) || has_suffix(b, "/v1/"@) {
        b + "/chat/completions"@
    } else {
        b + "/v1/chat/completions"@
    }
}

/// Build the chat-completions URL, tolerating either `host` or `host/v1`.
pub fn chat_url(base: &str) -> (r: String)
    ensures
        r@ == chat_url_of(base@),
{
    let mut b = normalize_base(base);
    if ends_with(b.as_str(), "/v1") || ends_with(b.as_str(), "/v1/") {
        push_str(&mut b, "/chat/completions");
    } else {
        push_str(&mut b, "/v1/chat/completions");
    }
    b
}

/// The system prompt for a configured prompt, a reply language and teacher
/// mode.
pub open spec fn system_text(prompt: Seq<char>, lang: Seq<char>, teacher: bool) -> Seq<char> {
    let instruction = "Respond in language code: "@ + lang + "."@;
    if teacher {
        trimmed(prompt) + "\n"@ + instruction + "\n\n"@ + TEACHER_PROMPT@
    } else {
        trimmed(prompt) + "\n"@ + instruction + " Be concise and helpful."@
    }
}

/// The messages of a chat request: the system prompt, the history (oldest
/// first), then the user's text.
pub open spec fn chat_messages(
    prompt: Seq<char>,
    lang: Seq<char>,
    teacher: bool,
    history: Seq<(Seq<char>, Seq<char>)>,
    user_text: Seq<char>,
) -> Seq<(Seq<char>, Seq<char>)> {
    seq![("system"@, system_text(prompt, lang, teacher))] + history + seq![("user"@, user_text)]
}

/// The text at `choices[0].<part>.content` of a reply document.
pub open spec fn choice_content(doc: Option<JsonValue>, part: Seq<char>) -> Option<Seq<char>> {
    text_of(
        value_at_key(
            value_at_key(value_at_index(value_at_key(doc, "choices"@), 0), part),
            "content"@,
        ),
    )
}

/// The piece of the answer a streamed event's data carries: the text at
/// `choices[0].delta.content`; `None` when the data is not JSON or has no
/// such string.
pub open spec fn sse_delta_of(data: Seq<char>) -> Option<Seq<char>> {
    choice_content(json_document_of(encode_utf8(data)), "delta"@)
}

/// The text `String::from_utf8_lossy` makes of bytes.
pub uninterp spec fn lossy_text_of(bytes: Seq<u8>) -> Seq<char>;

/// The text at `choices[0].<part>.content` of a reply document.
pub fn choice_content_in<'a>(doc: Option<&'a JsonValue>, part: &str) -> (r: Option<&'a str>)
    ensures
        match r {
            Some(s) => choice_content(deref_opt(doc), part@) == Some(s@),
            None => choice_content(deref_opt(doc), part@) is None,
        },
{
    text(get(get(at(get(doc, "choices"), 0), part), "content"))
}

/// `String::from_utf8_lossy`, which gives valid UTF-8 back unchanged.
#[verifier::external_body]
fn lossy_text(bytes: &[u8]) -> (r: String)
    ensures
        r@ == lossy_text_of(bytes@),
        valid_utf8(bytes@) ==> r@ == decode_utf8(bytes@),
{
    String::from_utf8_lossy(bytes).into_owned()
}

/// An `Llm` error with this text.
pub open spec fn is_llm_error<T>(r: Result<T, AnubisError>, text: Seq<char>) -> bool {
    r matches Err(AnubisError::Llm(m)) && m@ == text
}

/// The answer a parsed reply gives: its content, unless that is blank or
/// the body was not JSON (`None`).
pub open spec fn answer_in(doc: Option<JsonValue>) -> Result<Seq<char>, Seq<char>> {
    if doc is None {
        Err("json: error decoding response body"@)
    } else {
        let t = match choice_content(doc, "message"@) {
            Some(s) => s,
            None => Seq::empty(),
        };
        if trimmed(t).len() == 0 {
            Err("empty response from brain"@)
        } else {
            Ok(t)
        }
    }
}

/// The answer a reply body gives.
pub open spec fn answer_of(body: Seq<u8>) -> Result<Seq<char>, Seq<char>> {
    answer_in(json_document_of(body))
}

/// A failure of the model request at some stage (`request`, `stream`, or
/// `server <status>`), with its detail.
pub fn llm_failure(stage: &str, detail: &str) -> (e: AnubisError)
    ensures
        e matches AnubisError::Llm(m) && m@ == stage@ + ": "@ + detail@,
{
    let mut m = to_owned(stage);
    push_str(&mut m, ": ");
    push_str(&mut m, detail);
    AnubisError::Llm(m)
}

/// The answer in a parsed non-streamed reply (`None` when the body was not
/// JSON).
pub fn answer_from_document(doc: Option<&JsonValue>) -> (r: Result<String, AnubisError>)
    ensures
        match answer_in(deref_opt(doc)) {
            Ok(t) => r matches Ok(s) && s@ == t,
            Err(m) => is_llm_error(r, m),
        },
{
    if doc.is_none() {
        return Err(AnubisError::Llm(to_owned("json: error decoding response body")));
    }
    let t = match choice_content_in(doc, "message") {
        Some(s) => to_owned(s),
        None => String::new(),
    };
    if is_blank(t.as_str()) {
        Err(AnubisError::Llm(to_owned("empty response from brain")))
    } else {
        Ok(t)
    }
}

/// The answer in the body of a non-streamed reply.
pub fn answer_from_body(body: &[u8]) -> (r: Result<String, AnubisError>)
    ensures
        match answer_of(body@) {
            Ok(t) => r matches Ok(s) && s@ == t,
            Err(m) => is_llm_error(r, m),
        },
{
    let doc = json_parse(body);
    answer_from_document(doc.as_ref())
}

/// The language-model client's configuration and on/off state.
pub struct NoxisCore {
    cfg: LlmConfig,
    enabled: bool,
}

impl NoxisCore {
    /// The configuration.
    pub closed spec fn config(&self) -> LlmConfig {
        self.cfg
    }

    /// The client is enabled exactly when a base URL is configured.
    pub fn new(cfg: LlmConfig) -> (n: Self)
        ensures
            n.config() == cfg,
            n.is_enabled() == (trimmed(cfg.base_url@).len() != 0),
    {
        let enabled = !is_blank(cfg.base_url.as_str());
        NoxisCore { cfg, enabled }
    }

    /// Whether a base URL is configured.
    pub closed spec fn is_enabled(&self) -> bool {
        self.enabled
    }

    pub fn enabled(&self) -> (r: bool)
        ensures
            r == self.is_enabled(),
    {
        self.enabled
    }

    /// `Ok` when the client may be used, else the error asking for a URL.
    pub fn check_enabled(&self) -> (r: Result<(), AnubisError>)
        ensures
            self.is_enabled() ==> r is Ok,
            !self.is_enabled() ==> is_llm_error(r, "Noxis Core LLM URL not configured"@),
    {
        if self.enabled {
            Ok(())
        } else {
            Err(AnubisError::Llm(to_owned("Noxis Core LLM URL not configured")))
        }
    }

    /// The endpoint requests go to.
    pub fn endpoint(&self) -> (r: String)
        ensures
            r@ == chat_url_of(self.config().base_url@),
    {
        chat_url(self.cfg.base_url.as_str())
    }

    /// The bearer token to send: the trimmed API key, if it is not blank.
    pub fn bearer(&self) -> (r: Option<String>)
        ensures
            trimmed(self.config().api_key@).len() == 0 ==> r is None,
            trimmed(self.config().api_key@).len() != 0 ==> (r matches Some(k) && k@ == trimmed(
                self.config().api_key@,
            )),
    {
        let k = trim(self.cfg.api_key.as_str());
        if k.as_str().unicode_len() == 0 {
            None
        } else {
            Some(k)
        }
    }

    /// The model name and token limit to request.
    pub fn model(&self) -> (r: (&str, u32))
        ensures
            r.0@ == self.config().model@,
            r.1 == self.config().max_tokens,
    {
        (self.cfg.model.as_str(), self.cfg.max_tokens)
    }

    /// System prompt for a given user language and teacher mode.
    pub fn system_for(&self, lang: &str, teacher_mode: bool) -> (r: String)
        ensures
            r@ == system_text(self.config().system_prompt@, lang@, teacher_mode),
    {
        let mut s = trim(self.cfg.system_prompt.as_str());
        push_str(&mut s, "\n");
        push_str(&mut s, "Respond in language code: ");
        push_str(&mut s, lang);
        push_str(&mut s, ".");
        if teacher_mode {
            push_str(&mut s, "\n\n");
            push_str(&mut s, TEACHER_PROMPT);
        } else {
            push_str(&mut s, " Be concise and helpful.");
        }
        s
    }

    /// The messages of a chat request, as `(role, content)`.
    pub fn build_messages(
        &self,
        user_text: &str,
        lang: &str,
        history: &[Turn],
        teacher_mode: bool,
    ) -> (r: Vec<Turn>)
        ensures
            turn_texts(r@) == chat_messages(
                self.config().system_prompt@,
                lang@,
                teacher_mode,
                turn_texts(history@),
                user_text@,
            ),
    {
        let mut out: Vec<Turn> = Vec::new();
        out.push((to_owned("system"), self.system_for(lang, teacher_mode)));
        let mut i: usize = 0;
        while i < history.len()
            invariant
                i <= history@.len(),
                turn_texts(out@) =~= seq![("system"@, system_text(self.config().system_prompt@, lang@, teacher_mode))]
                    + turn_texts(history@).take(i as int),
            decreases history@.len() - i,
        {
            let ghost before = out@;
            out.push((history[i].0.clone(), history[i].1.clone()));
            assert(turn_texts(out@) =~= turn_texts(before).push(crate::memory::turn_text(history@[i as int])));
            assert(turn_texts(history@).take(i + 1) =~= turn_texts(history@).take(i as int).push(
                crate::memory::turn_text(history@[i as int]),
            ));
            i = i + 1;
        }
        out.push((to_owned("user"), to_owned(user_text)));
        assert(turn_texts(history@).take(history@.len() as int) =~= turn_texts(history@));
        out
    }
}


/// The first position of `c` in `s`, if any.
pub open spec fn first_index_of<T>(s: Seq<T>, c: T) -> Option<int>
    decreases s.len(),
{
    if s.len() == 0 {
        None
    } else if s[0] == c {
        Some(0)
    } else {
        match first_index_of(s.drop_first(), c) {
            Some(i) => Some(i + 1),
            None => None,
        }
    }
}

proof fn lemma_first_index<T>(s: Seq<T>, c: T, i: int)
    requires
        0 <= i <= s.len(),
        forall|j: int| 0 <= j < i ==> s[j] != c,
    ensures
        i == s.len() ==> first_index_of(s, c) is None,
        i < s.len() && s[i] == c ==> first_index_of(s, c) == Some(i),
    decreases s.len(),
{
    if s.len() > 0 && i > 0 {
        lemma_first_index(s.drop_first(), c, i - 1);
    }
}

/// The data of an event-stream line: `None` for a blank line or one that
/// is not a `data:` line; else the trimmed text after its `data:` prefixes.
pub open spec fn line_data(line: Seq<char>) -> Option<Seq<char>> {
    let t = trimmed(line);
    if t.len() == 0 || !has_prefix(t, "data:"@) {
        None
    } else {
        Some(trimmed(strip_prefix_all(t, "data:"@)))
    }
}

/// The text of a received line: its UTF-8 decoding when it is valid UTF-8,
/// else what `String::from_utf8_lossy` makes of it.
pub open spec fn line_text(bytes: Seq<u8>) -> Seq<char> {
    if valid_utf8(bytes) {
        decode_utf8(bytes)
    } else {
        lossy_text_of(bytes)
    }
}

/// What one complete line of a streamed reply means.
pub enum LineEvent {
    /// Nothing: a blank line, another field, or data without a piece.
    Skip,
    /// A (non-empty) piece of the answer.
    Delta(Seq<char>),
    /// The end marker.
    Done,
}

/// What the line with these bytes (its newline included) means.
pub open spec fn line_event(line: Seq<u8>) -> LineEvent {
    match line_data(line_text(line)) {
        None => LineEvent::Skip,
        Some(d) => if d == "[DONE]"@ {
            LineEvent::Done
        } else {
            match sse_delta_of(d) {
                Some(x) => if x.len() > 0 {
                    LineEvent::Delta(x)
                } else {
                    LineEvent::Skip
                },
                None => LineEvent::Skip,
            }
        },
    }
}

/// Delta law: a `data:` line whose event carries a non-empty piece `x` of
/// the answer at `choices[0].delta.content` is a `Delta` with exactly `x`,
/// white space and newlines included (a piece that is only white space is
/// still part of the answer); a line carrying an empty piece, or none, adds
/// nothing.
pub proof fn lemma_delta_lines(line: Seq<u8>, d: Seq<char>, x: Seq<char>)
    requires
        line_data(line_text(line)) == Some(d),
        d != "[DONE]"@,
        sse_delta_of(d) == Some(x),
    ensures
        x.len() > 0 ==> line_event(line) == LineEvent::Delta(x),
        x.len() == 0 ==> line_event(line) == LineEvent::Skip,
{
}

/// End law: a line whose data is `[DONE]` ends the stream, whatever else
/// the stream held.
pub proof fn lemma_done_line(line: Seq<u8>)
    requires
        line_data(line_text(line)) == Some("[DONE]"@),
    ensures
        line_event(line) == LineEvent::Done,
{
}

/// The position `first_index_of` gives holds `c`.
pub proof fn lemma_first_index_found<T>(s: Seq<T>, c: T)
    ensures
        first_index_of(s, c) matches Some(p) ==> 0 <= p < s.len() && s[p] == c,
    decreases s.len(),
{
    if s.len() > 0 && s[0] != c {
        lemma_first_index_found(s.drop_first(), c);
    }
}

proof fn lemma_first_index_extend<T>(a: Seq<T>, b: Seq<T>, c: T)
    ensures
        first_index_of(a, c) is Some ==> first_index_of(a + b, c) == first_index_of(a, c),
    decreases a.len(),
{
    if a.len() > 0 {
        assert((a + b)[0] == a[0]);
        if a[0] != c {
            assert((a + b).drop_first() =~= a.drop_first() + b);
            lemma_first_index_extend(a.drop_first(), b, c);
        }
    }
}

/// The events the complete lines of `pending` give, in order, up to and
/// including the end marker, and the bytes left over (none after the end
/// marker): what calling `next_event` until it needs more yields.
pub open spec fn drain(pending: Seq<u8>) -> (Seq<LineEvent>, Seq<u8>)
    decreases pending.len(),
{
    match first_index_of(pending, 10u8) {
        None => (Seq::empty(), pending),
        Some(pos) => {
            proof {
                lemma_first_index_found(pending, 10u8);
            }
            let ev = line_event(pending.subrange(0, pos + 1));
            if ev is Done {
                (seq![ev], Seq::empty())
            } else {
                let next = drain(pending.subrange(pos + 1, pending.len() as int));
                (seq![ev] + next.0, next.1)
            }
        },
    }
}

/// Chunking law: draining after a first chunk `a` and again after the next
/// chunk `b` yields the same events as draining `a + b` at once (only the
/// events up to the end marker when it came within `a`), and leaves the same
/// bytes. Lines are split at newline bytes and decoded whole, so a chunk
/// boundary inside a line, even inside a character, changes nothing.
pub proof fn lemma_drain_chunked(a: Seq<u8>, b: Seq<u8>)
    ensures
        ({
            let first = drain(a);
            if first.0.len() > 0 && first.0.last() is Done {
                drain(a + b).0 == first.0
            } else {
                &&& drain(a + b).0 == first.0 + drain(first.1 + b).0
                &&& drain(a + b).1 == drain(first.1 + b).1
            }
        }),
    decreases a.len(),
{
    lemma_first_index_extend(a, b, 10u8);
    lemma_first_index_found(a, 10u8);
    match first_index_of(a, 10u8) {
        None => {
            assert(drain(a).0 =~= Seq::<LineEvent>::empty());
            assert(Seq::<LineEvent>::empty() + drain(a + b).0 =~= drain(a + b).0);
        },
        Some(pos) => {
            let ab = a + b;
            lemma_first_index_found(ab, 10u8);
            assert(ab.subrange(0, pos + 1) =~= a.subrange(0, pos + 1));
            let tail = a.subrange(pos + 1, a.len() as int);
            assert(ab.subrange(pos + 1, ab.len() as int) =~= tail + b);
            let ev = line_event(a.subrange(0, pos + 1));
            if !(ev is Done) {
                lemma_drain_chunked(tail, b);
                let inner = drain(tail);
                if inner.0.len() > 0 && inner.0.last() is Done {
                    assert((seq![ev] + inner.0).last() == inner.0.last());
                } else {
                    if inner.0.len() == 0 {
                        assert((seq![ev] + inner.0).last() == ev);
                    } else {
                        assert((seq![ev] + inner.0).last() == inner.0.last());
                    }
                    assert(seq![ev] + (inner.0 + drain(inner.1 + b).0) =~= (seq![ev] + inner.0)
                        + drain(inner.1 + b).0);
                }
            }
        },
    }
}

/// One step of the stream decoder.
#[derive(Debug)]
pub enum SseEvent {
    /// No complete line is buffered; feed more bytes.
    NeedMore,
    /// A line that carries no text was consumed.
    Skip,
    /// A line carried this (non-empty) piece of the answer.
    Delta(String),
    /// The stream's end marker: the answer is complete.
    Done,
}

/// Decodes a streamed reply: `data:` lines, each carrying a JSON event with
/// a piece of the answer, until a `[DONE]` line. Bytes are buffered as they
/// arrive and each whole line is decoded on its own, so how the transport
/// splits the body into chunks does not matter.
pub struct SseDecoder {
    buf: Vec<u8>,
    full: String,
}

/// The bytes `v[from..to]` as a new vector.
fn bytes_between(v: &Vec<u8>, from: usize, to: usize) -> (r: Vec<u8>)
    requires
        from <= to <= v@.len(),
    ensures
        r@ == v@.subrange(from as int, to as int),
{
    let mut out: Vec<u8> = Vec::new();
    let mut k = from;
    while k < to
        invariant
            from <= k <= to <= v@.len(),
            out@ == v@.subrange(from as int, k as int),
        decreases to - k,
    {
        out.push(v[k]);
        k = k + 1;
        assert(out@ =~= v@.subrange(from as int, k as int));
    }
    out
}

impl SseDecoder {
    /// Received bytes not yet consumed as lines.
    pub closed spec fn pending(&self) -> Seq<u8> {
        self.buf@
    }

    /// The answer so far: the pieces of the consumed lines, in order.
    pub closed spec fn answer(&self) -> Seq<char> {
        self.full@
    }

    pub fn new() -> (d: Self)
        ensures
            d.pending().len() == 0,
            d.answer().len() == 0,
    {
        SseDecoder { buf: Vec::new(), full: String::new() }
    }

    /// Append a received chunk.
    pub fn push_chunk(&mut self, chunk: &[u8])
        ensures
            final(self).pending() == old(self).pending() + chunk@,
            final(self).answer() == old(self).answer(),
    {
        let mut i: usize = 0;
        while i < chunk.len()
            invariant
                i <= chunk@.len(),
                self.buf@ =~= old(self).buf@ + chunk@.take(i as int),
                self.full == old(self).full,
            decreases chunk@.len() - i,
        {
            self.buf.push(chunk[i]);
            i = i + 1;
        }
        assert(chunk@.take(chunk@.len() as int) =~= chunk@);
    }

    /// Consume the next buffered line, if a whole one is buffered, and say
    /// what it carried. The line is decoded as UTF-8, invalid sequences
    /// replaced.
    pub fn next_event(&mut self) -> (r: SseEvent)
        ensures
            match first_index_of(old(self).pending(), 10u8) {
                None => r is NeedMore && final(self).pending() == old(self).pending()
                    && final(self).answer() == old(self).answer(),
                Some(pos) => {
                    let rest = old(self).pending().subrange(pos + 1, old(self).pending().len() as int);
                    match line_event(old(self).pending().subrange(0, pos + 1)) {
                        LineEvent::Skip => r is Skip && final(self).pending() == rest
                            && final(self).answer() == old(self).answer(),
                        LineEvent::Delta(x) => (r matches SseEvent::Delta(s) && s@ == x)
                            && final(self).pending() == rest && final(self).answer()
                            == old(self).answer() + x,
                        LineEvent::Done => r is Done && final(self).pending().len() == 0
                            && final(self).answer() == old(self).answer(),
                    }
                },
            },
    {
        let n = self.buf.len();
        let mut i: usize = 0;
        while i < n && self.buf[i] != 10u8
            invariant
                i <= n,
                n == self.buf@.len(),
                forall|j: int| 0 <= j < i ==> self.buf@[j] != 10u8,
            decreases n - i,
        {
            i = i + 1;
        }
        proof {
            lemma_first_index(self.buf@, 10u8, i as int);
        }
        if i == n {
            return SseEvent::NeedMore;
        }
        let line_bytes = bytes_between(&self.buf, 0, i + 1);
        let rest = bytes_between(&self.buf, i + 1, n);
        self.buf = rest;
        let line = lossy_text(line_bytes.as_slice());
        let t = trim(line.as_str());
        if t.as_str().unicode_len() == 0 || !starts_with(t.as_str(), "data:") {
            return SseEvent::Skip;
        }
        proof {
            reveal_strlit("data:");
        }
        let data = trim(strip_prefixes(t.as_str(), "data:").as_str());
        if str_eq(data.as_str(), "[DONE]") {
            self.buf = Vec::new();
            return SseEvent::Done;
        }
        let doc = json_parse(data.as_str().as_bytes());
        match choice_content_in(doc.as_ref(), "delta") {
            Some(x) => {
                if x.unicode_len() > 0 {
                    push_str(&mut self.full, x);
                    SseEvent::Delta(to_owned(x))
                } else {
                    SseEvent::Skip
                }
            },
            None => SseEvent::Skip,
        }
    }

    /// The complete answer, or the error for a stream that carried none.
    pub fn finish(&self) -> (r: Result<String, AnubisError>)
        ensures
            trimmed(self.answer()).len() == 0 ==> is_llm_error(r, "empty response from brain"@),
            trimmed(self.answer()).len() != 0 ==> (r matches Ok(s) && s@ == self.answer()),
    {
        if is_blank(self.full.as_str()) {
            Err(AnubisError::Llm(to_owned("empty response from brain")))
        } else {
            Ok(self.full.clone())
        }
    }
}

} // verus!
