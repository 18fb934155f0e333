//! Doubao (豆包, Volcengine) streaming recognition: endpoints, the session
//! configuration, and how its replies turn into final and interim text.
use vstd::prelude::*;
use super::session::StreamPolicy;
use crate::text::{owned, push_str, str_eq, dec_seq, u64_to_dec};

verus! {

/// Recognition mode.
#[derive(Debug, Clone, PartialEq, Eq)]
pub enum DoubaoMode {
    /// Two-pass bidirectional streaming: real time, Chinese and English.
    BiStream,
    /// Streaming input with sentence-level results: dialects and more
    /// languages.
    NoStream,
}

/// Doubao credentials and mode.
#[derive(Debug, Clone)]
pub struct DoubaoSettings {
    pub app_id: String,
    pub access_token: String,
    pub resource_id: String,
    pub mode: DoubaoMode,
}

/// The Doubao provider.
#[derive(Debug, Clone)]
pub struct DoubaoProvider {
    pub settings: DoubaoSettings,
}

/// The mode named by the `asr_mode` setting: `"nostream"`, else two-pass
/// streaming.
pub fn doubao_mode_from_setting(asr_mode: &str) -> (m: DoubaoMode)
    ensures
        m == if asr_mode@ == "nostream"@ {
            DoubaoMode::NoStream
        } else {
            DoubaoMode::BiStream
        },
{
    if str_eq(asr_mode, "nostream") {
        DoubaoMode::NoStream
    } else {
        DoubaoMode::BiStream
    }
}

/// The WebSocket endpoint of a mode.
pub fn doubao_endpoint(mode: &DoubaoMode) -> (url: &'static str)
    ensures
        url@ == match mode {
            DoubaoMode::BiStream => "wss://openspeech.bytedance.com/api/v3/sauc/bigmodel_async"@,
            DoubaoMode::NoStream => "wss://openspeech.bytedance.com/api/v3/sauc/bigmodel_nostream"@,
        },
{
    match mode {
        DoubaoMode::BiStream => "wss://openspeech.bytedance.com/api/v3/sauc/bigmodel_async",
        DoubaoMode::NoStream => "wss://openspeech.bytedance.com/api/v3/sauc/bigmodel_nostream",
    }
}

/// Audio chunk size: 200 ms of 16 kHz 16-bit mono.
pub const DOUBAO_CHUNK_SIZE: usize = 6400;

/// How a Doubao session streams: in two-pass mode the last response may
/// come mid-session and streaming goes on; a failed send only drops the
/// rest of that frame's audio.
pub fn doubao_policy(mode: &DoubaoMode) -> (p: StreamPolicy)
    ensures
        p.stop_on_done == (*mode == DoubaoMode::NoStream),
        !p.send_failure_fatal,
{
    match mode {
        DoubaoMode::BiStream => StreamPolicy { stop_on_done: false, send_failure_fatal: false },
        DoubaoMode::NoStream => StreamPolicy { stop_on_done: true, send_failure_fatal: false },
    }
}

/// The configuration sent at the start of a session (the full client
/// request), as plain values.
#[derive(Debug, Clone)]
pub struct DoubaoSessionConfig {
    pub uid: String,
    pub audio_format: String,
    pub rate: u32,
    pub bits: u32,
    pub channel: u32,
    pub model_name: String,
    pub enable_itn: bool,
    pub enable_punc: bool,
    pub enable_ddc: bool,
    pub show_utterances: bool,
    pub result_type: String,
    /// Second-pass recognition (`enable_nonstream`), two-pass mode only.
    pub enable_nonstream: Option<bool>,
    /// Silence that ends a sentence, in ms; two-pass mode only.
    pub end_window_size: Option<u32>,
}

/// The session configuration for a mode: 16 kHz 16-bit mono PCM, the big
/// model with inverse text normalization and punctuation, utterances with
/// full results; two-pass mode adds second-pass recognition and a 5 s end
/// window.
pub fn doubao_session_config(mode: &DoubaoMode) -> (c: DoubaoSessionConfig)
    ensures
        c.uid@ == "speakin"@,
        c.audio_format@ == "pcm"@,
        c.rate == 16000,
        c.bits == 16,
        c.channel == 1,
        c.model_name@ == "bigmodel"@,
        c.enable_itn,
        c.enable_punc,
        !c.enable_ddc,
        c.show_utterances,
        c.result_type@ == "full"@,
        c.enable_nonstream == if *mode == DoubaoMode::BiStream { Some(true) } else { None::<bool> },
        c.end_window_size == if *mode == DoubaoMode::BiStream { Some(5000u32) } else { None::<u32> },
{
    let two_pass = match mode {
        DoubaoMode::BiStream => true,
        DoubaoMode::NoStream => false,
    };
    DoubaoSessionConfig {
        uid: owned("speakin"),
        audio_format: owned("pcm"),
        rate: 16000,
        bits: 16,
        channel: 1,
        model_name: owned("bigmodel"),
        enable_itn: true,
        enable_punc: true,
        enable_ddc: false,
        show_utterances: true,
        result_type: owned("full"),
        enable_nonstream: if two_pass { Some(true) } else { None },
        end_window_size: if two_pass { Some(5000) } else { None },
    }
}

// ── Replies ──

/// One recognized utterance.
#[derive(Debug, Clone)]
pub struct DoubaoUtterance {
    pub text: String,
    /// The utterance will not change any more.
    pub definite: bool,
}

/// The `result` of a recognition reply.
#[derive(Debug, Clone)]
pub struct DoubaoResult {
    pub text: Option<String>,
    pub utterances: Option<Vec<DoubaoUtterance>>,
}

/// Number of definite utterances.
pub open spec fn definite_count(u: Seq<DoubaoUtterance>) -> nat
    decreases u.len(),
{
    if u.len() == 0 {
        0
    } else {
        definite_count(u.drop_last()) + if u.last().definite { 1nat } else { 0nat }
    }
}

/// The texts of the utterances, concatenated.
pub open spec fn concat_texts(u: Seq<DoubaoUtterance>) -> Seq<char>
    decreases u.len(),
{
    if u.len() == 0 {
        Seq::empty()
    } else {
        concat_texts(u.drop_last()) + u.last().text@
    }
}

/// The texts of the utterances that are not yet definite, concatenated.
pub open spec fn interim_texts(u: Seq<DoubaoUtterance>) -> Seq<char>
    decreases u.len(),
{
    if u.len() == 0 {
        Seq::empty()
    } else {
        interim_texts(u.drop_last()) + if u.last().definite { Seq::empty() } else { u.last().text@ }
    }
}

/// What one reply contributes.
#[derive(Debug, Clone)]
pub struct DoubaoUpdate {
    /// Newly committed final text.
    pub final_text: Option<String>,
    /// The current interim text.
    pub interim: Option<String>,
}

pub open spec fn nonempty_text(s: Seq<char>) -> Option<Seq<char>> {
    if s.len() > 0 {
        Some(s)
    } else {
        None
    }
}

pub open spec fn opt_text(s: Option<String>) -> Option<Seq<char>> {
    match s {
        Some(t) => Some(t@),
        None => None,
    }
}

/// Turns the replies of one session into final and interim text.
///
/// Replies carry the whole utterance list each time; the reader remembers
/// how many definite utterances it has committed, so each becomes final
/// text exactly once.
#[derive(Debug, Clone)]
pub struct DoubaoReader {
    pub committed_count: usize,
}

impl DoubaoReader {
    pub fn new() -> (r: Self)
        ensures
            r.committed_count == 0,
    {
        DoubaoReader { committed_count: 0 }
    }

    /// Takes one reply's result (`None` when the reply holds none).
    ///
    /// With an utterance list: when it holds more definite utterances than
    /// committed, the utterances from the committed count up to the
    /// definite count become the new final text and are committed; the
    /// non-definite utterances form the interim text.  Without one, a
    /// non-empty plain text is interim.  Empty texts are not reported.
    pub fn on_result(&mut self, result: Option<DoubaoResult>) -> (u: DoubaoUpdate)
        ensures
            match result {
                Some(DoubaoResult { text, utterances: Some(utts) }) => {
                    let dc = definite_count(utts@);
                    &&& (if dc > old(self).committed_count {
                        &&& final(self).committed_count == dc
                        &&& opt_text(u.final_text) == nonempty_text(
                            concat_texts(utts@.subrange(old(self).committed_count as int, dc as int)),
                        )
                    } else {
                        &&& final(self).committed_count == old(self).committed_count
                        &&& u.final_text is None
                    })
                    &&& opt_text(u.interim) == nonempty_text(interim_texts(utts@))
                },
                Some(DoubaoResult { text: Some(t), utterances: None }) => {
                    &&& final(self).committed_count == old(self).committed_count
                    &&& u.final_text is None
                    &&& opt_text(u.interim) == nonempty_text(t@)
                },
                _ => {
                    &&& final(self).committed_count == old(self).committed_count
                    &&& u.final_text is None
                    &&& u.interim is None
                },
            },
    {
        match result {
            Some(DoubaoResult { text, utterances: Some(utts) }) => {
                let dc = count_definite(utts.as_slice());
                let mut final_text: Option<String> = None;
                if dc > self.committed_count {
                    let t = concat_range(utts.as_slice(), self.committed_count, dc);
                    if !t.as_str().is_empty() {
                        final_text = Some(t);
                    }
                    self.committed_count = dc;
                }
                let i = concat_interim(utts.as_slice());
                let interim = if !i.as_str().is_empty() {
                    Some(i)
                } else {
                    None
                };
                DoubaoUpdate { final_text, interim }
            },
            Some(DoubaoResult { text: Some(t), utterances: None }) => {
                let interim = if !t.as_str().is_empty() {
                    Some(t)
                } else {
                    None
                };
                DoubaoUpdate { final_text: None, interim }
            },
            _ => DoubaoUpdate { final_text: None, interim: None },
        }
    }
}

fn count_definite(u: &[DoubaoUtterance]) -> (n: usize)
    ensures
        n == definite_count(u@),
        n <= u@.len(),
{
    let mut n: usize = 0;
    let mut i: usize = 0;
    while i < u.len()
        invariant
            i <= u@.len(),
            n == definite_count(u@.take(i as int)),
            n <= i,
        decreases u@.len() - i,
    {
        assert(u@.take((i + 1) as int).drop_last() =~= u@.take(i as int));
        if u[i].definite {
            n = n + 1;
        }
        i = i + 1;
    }
    assert(u@.take(i as int) =~= u@);
    n
}

fn concat_range(u: &[DoubaoUtterance], from: usize, to: usize) -> (s: String)
    requires
        from <= to <= u@.len(),
    ensures
        s@ == concat_texts(u@.subrange(from as int, to as int)),
{
    let mut s = String::new();
    let mut i = from;
    assert(u@.subrange(from as int, from as int) =~= Seq::<DoubaoUtterance>::empty());
    while i < to
        invariant
            from <= i <= to <= u@.len(),
            s@ == concat_texts(u@.subrange(from as int, i as int)),
        decreases to - i,
    {
        assert(u@.subrange(from as int, i + 1).drop_last() =~= u@.subrange(from as int, i as int));
        push_str(&mut s, u[i].text.as_str());
        i = i + 1;
    }
    s
}

fn concat_interim(u: &[DoubaoUtterance]) -> (s: String)
    ensures
        s@ == interim_texts(u@),
{
    let mut s = String::new();
    let mut i: usize = 0;
    while i < u.len()
        invariant
            i <= u@.len(),
            s@ == interim_texts(u@.take(i as int)),
        decreases u@.len() - i,
    {
        assert(u@.take((i + 1) as int).drop_last() =~= u@.take(i as int));
        if !u[i].definite {
            push_str(&mut s, u[i].text.as_str());
        } else {
            assert(s@ + Seq::<char>::empty() =~= s@);
        }
        i = i + 1;
    }
    assert(u@.take(i as int) =~= u@);
    s
}

/// The raw detail of an error frame: `ASR 错误 <code>: <message>`.
pub open spec fn doubao_error_seq(code: u32, message: Seq<char>) -> Seq<char> {
    "ASR 错误 "@ + dec_seq(code as nat) + ": "@ + message
}

/// The raw detail reported for an error frame.
pub fn doubao_error_detail(code: u32, message: &str) -> (d: String)
    ensures
        d@ == doubao_error_seq(code, message@),
{
    let mut d = owned("ASR 错误 ");
    let c = u64_to_dec(code as u64);
    push_str(&mut d, c.as_str());
    push_str(&mut d, ": ");
    push_str(&mut d, message);
    d
}


/// Concatenating the texts of two adjacent ranges of utterances gives the
/// text of the joined range.
pub proof fn lemma_concat_texts_split(u: Seq<DoubaoUtterance>, a: int, b: int, c: int)
    requires
        0 <= a <= b <= c <= u.len(),
    ensures
        concat_texts(u.subrange(a, b)) + concat_texts(u.subrange(b, c)) == concat_texts(u.subrange(a, c)),
    decreases c - b,
{
    if c == b {
        assert(u.subrange(b, c) =~= Seq::<DoubaoUtterance>::empty());
        assert(u.subrange(a, b) =~= u.subrange(a, c));
        assert(concat_texts(u.subrange(a, b)) + Seq::<char>::empty() =~= concat_texts(u.subrange(a, b)));
    } else {
        lemma_concat_texts_split(u, a, b, c - 1);
        assert(u.subrange(a, c).drop_last() =~= u.subrange(a, c - 1));
        assert(u.subrange(b, c).drop_last() =~= u.subrange(b, c - 1));
        assert(concat_texts(u.subrange(a, b)) + (concat_texts(u.subrange(b, c - 1)) + u[c - 1].text@)
            =~= (concat_texts(u.subrange(a, b)) + concat_texts(u.subrange(b, c - 1))) + u[c - 1].text@);
    }
}

/// The final texts of two successive replies, where the second still holds
/// the utterances the first committed, are together the text of every
/// utterance committed over both: no committed utterance is lost or
/// repeated.
pub proof fn lemma_finals_cover_committed(u1: Seq<DoubaoUtterance>, u2: Seq<DoubaoUtterance>, c0: int)
    requires
        0 <= c0 <= definite_count(u1),
        definite_count(u1) <= definite_count(u2) <= u2.len(),
        definite_count(u1) <= u1.len(),
        u1.subrange(0, definite_count(u1) as int) == u2.subrange(0, definite_count(u1) as int),
    ensures
        concat_texts(u1.subrange(c0, definite_count(u1) as int)) + concat_texts(
            u2.subrange(definite_count(u1) as int, definite_count(u2) as int),
        ) == concat_texts(u2.subrange(c0, definite_count(u2) as int)),
{
    let d1 = definite_count(u1) as int;
    let d2 = definite_count(u2) as int;
    assert(u1.subrange(c0, d1) =~= u2.subrange(c0, d1)) by {
        assert forall|i: int| 0 <= i < d1 - c0 implies u1.subrange(c0, d1)[i] == u2.subrange(c0, d1)[i] by {
            assert(u1.subrange(0, d1)[c0 + i] == u2.subrange(0, d1)[c0 + i]);
        }
    }
    lemma_concat_texts_split(u2, c0, d1, d2);
}

} // verus!
