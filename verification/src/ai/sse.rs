//! Reading a server-sent event stream of completion chunks.
//!
//! Received bytes are decoded and buffered; line endings are normalized;
//! events are the blocks separated by a blank line.  Each event's `data:`
//! lines are joined into one JSON payload, which the caller parses into a
//! chunk (an OpenAI delta or a Gemini response), and the chunks' text is
//! accumulated into the answer.
use vstd::prelude::*;
use crate::protocol::{utf8_lossy, utf8_to_string_lossy};
use crate::text::{
    chars_of, contains_seq, dec_seq, extend_chars, match_at, matches_at, owned, push_str,
    replace_chars, replace_seq, starts_with, string_from_chars, trim, trim_chars,
};

verus! {

// ── Buffering ──

/// Line endings normalized: `\r\n` and lone `\r` become `\n` (when the text
/// holds a `\r` at all).
pub open spec fn normalize_newlines(s: Seq<char>) -> Seq<char> {
    if s.contains('\r') {
        replace_seq(replace_seq(s, seq!['\r', '\n'], seq!['\n']), seq!['\r'], seq!['\n'])
    } else {
        s
    }
}

/// `i` is where the first blank-line separator of `s` starts.
pub open spec fn first_separator(s: Seq<char>, i: int) -> bool {
    matches_at(s, i, seq!['\n', '\n']) && forall|j: int| 0 <= j < i ==> !matches_at(s, j, seq!['\n', '\n'])
}

/// Text received from the server and not yet split into events.
pub struct SseBuffer {
    pub buffer: String,
}

impl SseBuffer {
    pub fn new() -> (b: Self)
        ensures
            b.buffer@.len() == 0,
    {
        SseBuffer { buffer: String::new() }
    }

    /// Appends received bytes, decoded leniently (`String::from_utf8_lossy`),
    /// and normalizes line endings.
    pub fn push_bytes(&mut self, bytes: &[u8])
        ensures
            final(self).buffer@ == normalize_newlines(old(self).buffer@ + utf8_lossy(bytes@)),
    {
        let text = utf8_to_string_lossy(bytes);
        self.push_text(text.as_str());
    }

    /// Appends received text and normalizes line endings.
    pub fn push_text(&mut self, text: &str)
        ensures
            final(self).buffer@ == normalize_newlines(old(self).buffer@ + text@),
    {
        let mut v = chars_of(self.buffer.as_str());
        let t = chars_of(text);
        extend_chars(&mut v, t.as_slice());
        let mut has_cr = false;
        let mut i: usize = 0;
        while i < v.len()
            invariant
                i <= v@.len(),
                has_cr == exists|k: int| 0 <= k < i && v@[k] == '\r',
            decreases v@.len() - i,
        {
            if v[i] == '\r' {
                has_cr = true;
            }
            i = i + 1;
        }
        if has_cr {
            let crlf: Vec<char> = vec!['\r', '\n'];
            let lf: Vec<char> = vec!['\n'];
            let cr: Vec<char> = vec!['\r'];
            assert(crlf@ =~= seq!['\r', '\n'] && lf@ =~= seq!['\n'] && cr@ =~= seq!['\r']);
            let a = replace_chars(v.as_slice(), crlf.as_slice(), lf.as_slice());
            let b = replace_chars(a.as_slice(), cr.as_slice(), lf.as_slice());
            self.buffer = string_from_chars(b.as_slice());
        } else {
            assert(!v@.contains('\r'));
            self.buffer = string_from_chars(v.as_slice());
        }
    }

    /// Takes the next complete event: the text before the first blank
    /// line, which is removed with it.  `None` while no event is complete.
    pub fn next_event(&mut self) -> (ev: Option<String>)
        ensures
            match ev {
                Some(e) => exists|i: int| {
                    &&& #[trigger] first_separator(old(self).buffer@, i)
                    &&& e@ == old(self).buffer@.take(i)
                    &&& final(self).buffer@ == old(self).buffer@.skip(i + 2)
                },
                None => {
                    &&& !contains_seq(old(self).buffer@, seq!['\n', '\n'])
                    &&& final(self).buffer@ == old(self).buffer@
                },
            },
    {
        let v = chars_of(self.buffer.as_str());
        let sep: Vec<char> = vec!['\n', '\n'];
        assert(sep@ =~= seq!['\n', '\n']);
        let mut i: usize = 0;
        while i < v.len()
            invariant
                i <= v@.len(),
                v@ == self.buffer@,
                self.buffer@ == old(self).buffer@,
                sep@ == seq!['\n', '\n'],
                forall|j: int| 0 <= j < i ==> !matches_at(v@, j, seq!['\n', '\n']),
            decreases v@.len() - i,
        {
            if match_at(v.as_slice(), i, sep.as_slice()) {
                let mut head: Vec<char> = Vec::new();
                let mut k: usize = 0;
                while k < i
                    invariant
                        k <= i < v@.len(),
                        head@ == v@.take(k as int),
                    decreases i - k,
                {
                    head.push(v[k]);
                    k = k + 1;
                    assert(head@ =~= v@.take(k as int));
                }
                let mut rest: Vec<char> = Vec::new();
                let mut m = i + 2;
                while m < v.len()
                    invariant
                        i + 2 <= m <= v@.len(),
                        rest@ == v@.subrange(i + 2, m as int),
                    decreases v@.len() - m,
                {
                    rest.push(v[m]);
                    m = m + 1;
                    assert(rest@ =~= v@.subrange(i + 2, m as int));
                }
                assert(rest@ =~= v@.skip(i + 2));
                assert(first_separator(v@, i as int));
                let ghost before = v@;
                self.buffer = string_from_chars(rest.as_slice());
                let e = string_from_chars(head.as_slice());
                assert(before == old(self).buffer@);
                assert(first_separator(old(self).buffer@, i as int));
                assert(e@ == old(self).buffer@.take(i as int));
                assert(self.buffer@ == old(self).buffer@.skip(i + 2));
                return Some(e);
            }
            i = i + 1;
        }
        assert forall|j: int| !matches_at(v@, j, seq!['\n', '\n']) by {
            if 0 <= j && j >= v@.len() {
            }
        }
        None
    }

    /// At the end of the stream: what is left, trimmed, if anything.
    pub fn take_rest(&mut self) -> (r: Option<String>)
        ensures
            match r {
                Some(s) => s@ == trim(old(self).buffer@) && s@.len() > 0,
                None => trim(old(self).buffer@).len() == 0,
            },
            final(self).buffer@.len() == 0,
    {
        let v = chars_of(self.buffer.as_str());
        let t = trim_chars(v.as_slice());
        self.buffer = String::new();
        if t.len() == 0 {
            None
        } else {
            Some(string_from_chars(t.as_slice()))
        }
    }
}

// ── Events ──

/// The index of the first `\n` in `s`, or `s.len()` when there is none.
pub open spec fn newline_index(s: Seq<char>) -> nat
    decreases s.len(),
{
    if s.len() == 0 {
        0
    } else if s[0] == '\n' {
        0
    } else {
        newline_index(s.drop_first()) + 1
    }
}

/// A line without the `\r` of a `\r\n` ending.
pub open spec fn strip_cr(l: Seq<char>) -> Seq<char> {
    if l.len() > 0 && l.last() == '\r' {
        l.drop_last()
    } else {
        l
    }
}

/// The lines of a text (as `str::lines`): split at `\n`, each line without
/// the `\r` of a `\r\n` ending, no empty line after a final `\n`.
pub open spec fn split_lines(s: Seq<char>) -> Seq<Seq<char>>
    decreases s.len(),
{
    if s.len() == 0 {
        Seq::empty()
    } else {
        let k = newline_index(s);
        if k >= s.len() {
            seq![s]
        } else {
            seq![strip_cr(s.take(k as int))] + split_lines(s.skip(k + 1int))
        }
    }
}

/// The payload of an event.
pub enum SseData {
    /// The `data: [DONE]` end marker.
    Done,
    /// The non-empty `data:` values, trimmed and joined.
    Data(String),
    /// No data.
    Empty,
}

/// What an event's lines carry: scanning the `data:` lines in order, a
/// `[DONE]` value ends the stream (where that marker is used); other
/// non-empty trimmed values are joined.
pub open spec fn scan_data(lines: Seq<Seq<char>>, acc: Seq<char>, done_marker: bool) -> Option<Seq<char>>
    decreases lines.len(),
{
    if lines.len() == 0 {
        Some(acc)
    } else {
        let l = lines[0];
        if starts_with(l, "data:"@) {
            let d = trim(l.skip(5));
            if done_marker && d == "[DONE]"@ {
                None
            } else {
                scan_data(lines.drop_first(), acc + d, done_marker)
            }
        } else {
            scan_data(lines.drop_first(), acc, done_marker)
        }
    }
}

/// The payload of an event text.
pub open spec fn sse_data_spec(event: Seq<char>, done_marker: bool) -> Option<Seq<char>> {
    scan_data(split_lines(event), Seq::empty(), done_marker)
}

proof fn lemma_newline_index(s: Seq<char>)
    ensures
        newline_index(s) <= s.len(),
        newline_index(s) < s.len() ==> s[newline_index(s) as int] == '\n',
        forall|j: int| 0 <= j < newline_index(s) ==> s[j] != '\n',
    decreases s.len(),
{
    if s.len() > 0 && s[0] != '\n' {
        lemma_newline_index(s.drop_first());
        assert forall|j: int| 0 <= j < newline_index(s) implies s[j] != '\n' by {
            if j > 0 {
                assert(s[j] == s.drop_first()[j - 1]);
            }
        }
    }
}

/// Reads an event's payload.  `done_marker` makes `data: [DONE]` the end
/// of the stream (OpenAI); Gemini has no such marker.
pub fn sse_data(event: &str, done_marker: bool) -> (d: SseData)
    ensures
        match d {
            SseData::Done => done_marker && sse_data_spec(event@, done_marker) is None,
            SseData::Data(s) => sse_data_spec(event@, done_marker) == Some(s@) && s@.len() > 0,
            SseData::Empty => sse_data_spec(event@, done_marker) == Some(Seq::<char>::empty()),
        },
{
    let v = chars_of(event);
    let prefix = chars_of("data:");
    let done = chars_of("[DONE]");
    proof {
        reveal_strlit("data:");
        reveal_strlit("[DONE]");
    }
    let mut acc: Vec<char> = Vec::new();
    let mut pos: usize = 0;
    assert(v@.skip(0) =~= v@);
    while pos < v.len()
        invariant
            pos <= v@.len(),
            v@ == event@,
            prefix@ == "data:"@,
            prefix@.len() == 5,
            done@ == "[DONE]"@,
            scan_data(split_lines(v@.skip(pos as int)), acc@, done_marker) == sse_data_spec(
                event@,
                done_marker,
            ),
        decreases v@.len() - pos,
    {
        let ghost rest = v@.skip(pos as int);
        proof {
            lemma_newline_index(rest);
        }
        let mut end = pos;
        while end < v.len() && v[end] != '\n'
            invariant
                pos <= end <= v@.len(),
                rest == v@.skip(pos as int),
                forall|j: int| pos <= j < end ==> v@[j] != '\n',
            decreases v@.len() - end,
        {
            end = end + 1;
        }
        assert(end - pos == newline_index(rest)) by {
            if end - pos < newline_index(rest) {
                assert(rest[end - pos] == v@[end as int]);
            }
            if end - pos > newline_index(rest) {
                assert(rest[newline_index(rest) as int] == v@[pos + newline_index(rest)]);
            }
        }
        // The line, without a `\r` before its `\n`.
        let mut line_end = end;
        if end < v.len() && end > pos && v[end - 1] == '\r' {
            line_end = end - 1;
        }
        let mut line: Vec<char> = Vec::new();
        let mut k = pos;
        while k < line_end
            invariant
                pos <= k <= line_end <= v@.len(),
                line@ == v@.subrange(pos as int, k as int),
            decreases line_end - k,
        {
            line.push(v[k]);
            k = k + 1;
            assert(line@ =~= v@.subrange(pos as int, k as int));
        }
        let ghost this_line = if end < v@.len() {
            strip_cr(rest.take((end - pos) as int))
        } else {
            rest
        };
        assert(line@ =~= this_line) by {
            if end < v@.len() {
                assert(rest.take((end - pos) as int) =~= v@.subrange(pos as int, end as int));
            } else {
                assert(rest =~= v@.subrange(pos as int, end as int));
            }
        }
        let next = if end < v.len() {
            end + 1
        } else {
            end
        };
        assert(split_lines(rest) =~= seq![this_line] + split_lines(v@.skip(next as int))) by {
            if end < v@.len() {
                assert(rest.skip(end - pos + 1) =~= v@.skip(next as int));
            } else {
                assert(v@.skip(next as int) =~= Seq::<char>::empty());
            }
        }
        let l = line.as_slice();
        if l.len() >= 5 && match_at(l, 0, prefix.as_slice()) {
            let mut tail: Vec<char> = Vec::new();
            let mut m: usize = 5;
            while m < l.len()
                invariant
                    5 <= m <= l@.len(),
                    tail@ == l@.subrange(5, m as int),
                decreases l@.len() - m,
            {
                tail.push(l[m]);
                m = m + 1;
                assert(tail@ =~= l@.subrange(5, m as int));
            }
            assert(tail@ =~= l@.skip(5));
            let d = trim_chars(tail.as_slice());
            let is_done = d.len() == 6 && match_at(d.as_slice(), 0, done.as_slice());
            assert(is_done == (d@ == "[DONE]"@)) by {
                reveal_strlit("[DONE]");
                if d@.len() == 6 {
                    assert(d@.subrange(0, 6) =~= d@);
                }
            }
            if done_marker && is_done {
                assert(scan_data(seq![this_line] + split_lines(v@.skip(next as int)), acc@, done_marker) is None) by {
                    assert((seq![this_line] + split_lines(v@.skip(next as int))).drop_first() =~= split_lines(v@.skip(next as int)));
                }
                return SseData::Done;
            }
            extend_chars(&mut acc, d.as_slice());
            assert((seq![this_line] + split_lines(v@.skip(next as int))).drop_first() =~= split_lines(v@.skip(next as int)));
        } else {
            assert(!starts_with(this_line, "data:"@)) by {
                if starts_with(this_line, "data:"@) {
                    assert(l@.subrange(0, 5) =~= this_line.subrange(0, 5));
                }
            }
            assert((seq![this_line] + split_lines(v@.skip(next as int))).drop_first() =~= split_lines(v@.skip(next as int)));
        }
        pos = next;
    }
    assert(v@.skip(pos as int) =~= Seq::<char>::empty());
    if acc.len() == 0 {
        SseData::Empty
    } else {
        SseData::Data(string_from_chars(acc.as_slice()))
    }
}


// ── Chunks ──

/// The fields of an OpenAI-compatible stream chunk that the answer depends
/// on.
#[derive(Debug, Clone)]
pub struct OpenAiChunk {
    /// Present when the chunk holds an `error` object: its `message`, if a
    /// string.
    pub error: Option<Option<String>>,
    /// `choices[0].delta.content`, if a string.
    pub content: Option<String>,
}

/// One part of a Gemini response (`candidates[0].content.parts[i]`).
#[derive(Debug, Clone)]
pub struct GeminiPart {
    /// `text`, if a string.
    pub text: Option<String>,
    /// `thought`: a reasoning part, not part of the answer.
    pub thought: bool,
}

/// What a chunk contributed.
#[derive(Debug, Clone, PartialEq, Eq)]
pub enum ChunkEffect {
    /// New answer text.
    Content(String),
    /// Nothing (a role or reasoning delta, an empty text).
    Ignored,
    /// The stream reported an error.
    Error(String),
}

/// The answer text of a Gemini response: the texts of its non-thought
/// parts, in order.
pub open spec fn gemini_text_spec(parts: Seq<GeminiPart>) -> Seq<char>
    decreases parts.len(),
{
    if parts.len() == 0 {
        Seq::empty()
    } else {
        let p = parts.last();
        gemini_text_spec(parts.drop_last()) + if p.thought {
            Seq::empty()
        } else {
            match p.text {
                Some(t) => t@,
                None => Seq::empty(),
            }
        }
    }
}

/// The answer text of a Gemini response.
pub fn gemini_text(parts: &[GeminiPart]) -> (t: String)
    ensures
        t@ == gemini_text_spec(parts@),
{
    let mut t = String::new();
    let mut i: usize = 0;
    while i < parts.len()
        invariant
            i <= parts@.len(),
            t@ == gemini_text_spec(parts@.take(i as int)),
        decreases parts@.len() - i,
    {
        assert(parts@.take((i + 1) as int).drop_last() =~= parts@.take(i as int));
        if !parts[i].thought {
            match &parts[i].text {
                Some(x) => push_str(&mut t, x.as_str()),
                None => {
                    assert(t@ + Seq::<char>::empty() =~= t@);
                },
            }
        } else {
            assert(t@ + Seq::<char>::empty() =~= t@);
        }
        i = i + 1;
    }
    assert(parts@.take(i as int) =~= parts@);
    t
}

/// A completion being streamed: the unread text and the answer so far.
pub struct CompletionStream {
    pub sse: SseBuffer,
    pub accumulated: String,
}

impl CompletionStream {
    pub fn new() -> (c: Self)
        ensures
            c.sse.buffer@.len() == 0,
            c.accumulated@.len() == 0,
    {
        CompletionStream { sse: SseBuffer::new(), accumulated: String::new() }
    }

    /// Takes an OpenAI chunk: an error ends the stream; non-empty content
    /// is appended to the answer.
    pub fn apply_openai(&mut self, chunk: &OpenAiChunk) -> (e: ChunkEffect)
        ensures
            final(self).sse.buffer@ == old(self).sse.buffer@,
            match chunk.error {
                Some(m) => final(self).accumulated@ == old(self).accumulated@ && (e matches ChunkEffect::Error(d)
                    && d@ == "AI API 流式错误: "@ + match m {
                    Some(t) => t@,
                    None => "流式响应中收到错误"@,
                }),
                None => match chunk.content {
                    Some(c) if c@.len() > 0 => e == ChunkEffect::Content(c)
                        && final(self).accumulated@ == old(self).accumulated@ + c@,
                    _ => e == ChunkEffect::Ignored && final(self).accumulated@ == old(self).accumulated@,
                },
            },
    {
        match &chunk.error {
            Some(m) => {
                let mut d = owned("AI API 流式错误: ");
                match m {
                    Some(t) => push_str(&mut d, t.as_str()),
                    None => push_str(&mut d, "流式响应中收到错误"),
                }
                ChunkEffect::Error(d)
            },
            None => match &chunk.content {
                Some(c) => if !c.as_str().is_empty() {
                    push_str(&mut self.accumulated, c.as_str());
                    ChunkEffect::Content(c.clone())
                } else {
                    ChunkEffect::Ignored
                },
                None => ChunkEffect::Ignored,
            },
        }
    }

    /// Takes a Gemini response of the stream: its answer text, when not
    /// empty, is appended and returned.
    pub fn apply_gemini(&mut self, parts: &[GeminiPart]) -> (t: Option<String>)
        ensures
            final(self).sse.buffer@ == old(self).sse.buffer@,
            gemini_text_spec(parts@).len() > 0 ==> (t matches Some(x) && x@ == gemini_text_spec(parts@)
                && final(self).accumulated@ == old(self).accumulated@ + gemini_text_spec(parts@)),
            gemini_text_spec(parts@).len() == 0 ==> t is None && final(self).accumulated@ == old(
                self,
            ).accumulated@,
    {
        let text = gemini_text(parts);
        if text.as_str().is_empty() {
            None
        } else {
            push_str(&mut self.accumulated, text.as_str());
            Some(text)
        }
    }
}

/// The answer of a non-streaming OpenAI response
/// (`choices[0].message.content`).
pub fn non_streaming_content(content: Option<String>) -> (r: Result<String, String>)
    ensures
        match content {
            Some(c) => r == Ok::<String, String>(c),
            None => r matches Err(e) && e@ == "AI 响应格式异常：缺少 content 字段"@,
        },
{
    match content {
        Some(c) => Ok(c),
        None => Err(owned("AI 响应格式异常：缺少 content 字段")),
    }
}

/// The answer of a non-streaming Gemini response; an empty answer is an
/// error.
pub fn gemini_non_streaming_content(parts: &[GeminiPart]) -> (r: Result<String, String>)
    ensures
        gemini_text_spec(parts@).len() > 0 ==> (r matches Ok(t) && t@ == gemini_text_spec(parts@)),
        gemini_text_spec(parts@).len() == 0 ==> (r matches Err(e) && e@
            == "Gemini 响应格式异常：未找到文本内容"@),
{
    let t = gemini_text(parts);
    if t.as_str().is_empty() {
        Err(owned("Gemini 响应格式异常：未找到文本内容"))
    } else {
        Ok(t)
    }
}

/// The message when the stream sent nothing for `idle_secs` seconds.
pub fn stream_timeout_message(gemini: bool, idle_secs: u64) -> (m: String)
    ensures
        m@ == (if gemini {
            "Gemini API 流式响应超时（"@
        } else {
            "AI API 流式响应超时（"@
        }) + dec_seq(idle_secs as nat) + "秒无数据）"@,
{
    let mut m = if gemini {
        owned("Gemini API 流式响应超时（")
    } else {
        owned("AI API 流式响应超时（")
    };
    let n = crate::text::u64_to_dec(idle_secs);
    push_str(&mut m, n.as_str());
    push_str(&mut m, "秒无数据）");
    m
}

/// The message when reading the stream failed.
pub fn stream_read_error(gemini: bool, detail: &str) -> (m: String)
    ensures
        m@ == (if gemini {
            "Gemini 流式读取失败: "@
        } else {
            "AI 流式读取失败: "@
        }) + detail@,
{
    let mut m = if gemini {
        owned("Gemini 流式读取失败: ")
    } else {
        owned("AI 流式读取失败: ")
    };
    push_str(&mut m, detail);
    m
}

} // verus!
