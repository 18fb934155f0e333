//! Speech-recognition sessions shared by every cloud provider: the terminal
//! outcome of a session and how it is reported and persisted, the error
//! classification shown to the user, and speech-start detection.
//!
//! Each provider (`doubao`, `dashscope`, `qwen`) holds its own endpoint and
//! message rules; `session` holds the streaming state machine they share.
use vstd::prelude::*;
use crate::audio::{HOTKEY_NOISE_GUARD_MS, SPEECH_START_MIN_HITS};
use crate::settings::{AppSettings, TranscriptRecord};
use crate::text::{
    chars_of, contains_lit, contains_seq, dec_seq, join_seq, join_strings, lower_chars,
    lower_seq, owned, push_str, str_eq, trim, trim_chars, u64_to_dec, views, extend_bytes,
    bytes_from,
};

pub mod dashscope;
pub mod doubao;
pub mod qwen;
pub mod session;

verus! {

/// Doubao credentials as the first single-provider release stored them.
#[derive(Debug, Clone)]
pub struct AsrSettings {
    pub app_id: String,
    pub access_token: String,
    pub resource_id: String,
}

/// A transcription result for the frontend.  `generation` is the recording
/// generation the session was started under, so late events of an earlier
/// session can be told apart.
#[derive(Debug, Clone)]
pub struct TranscriptUpdate {
    pub text: String,
    pub is_final: bool,
    pub generation: u64,
}

/// The single "this session is done" event.
#[derive(Debug, Clone)]
pub struct SessionEndedPayload {
    pub generation: u64,
    /// The session's final sentences joined by newlines; empty when nothing
    /// was transcribed.
    pub final_text: String,
    /// `"ok" | "no_speech" | "error" | "aborted"`.
    pub status: String,
    /// Short localized error text, set only when `status` is `"error"`.
    pub error_reason: Option<String>,
    /// Raw error detail, set only when `status` is `"error"`.
    pub error_detail: Option<String>,
    pub duration_ms: u64,
    /// Id of the persisted transcript record, if one was written.
    pub record_id: Option<String>,
}

/// How an ASR session ended, as the provider observed it.
#[derive(Debug, Clone)]
pub struct SessionOutcome {
    /// Each final sentence, in arrival order.
    pub finals: Vec<String>,
    /// `(localized_reason, raw_detail)` when the session failed.
    pub error: Option<(String, String)>,
    /// The user aborted the session.
    pub aborted: bool,
    /// Voice activity was confirmed during the session.
    pub had_speech: bool,
    pub duration_ms: u64,
}

/// A session outcome with its texts as character sequences.
pub struct OutcomeView {
    pub finals: Seq<Seq<char>>,
    pub error: Option<(Seq<char>, Seq<char>)>,
    pub aborted: bool,
    pub had_speech: bool,
    pub duration_ms: u64,
}

/// The view of an optional pair of strings.
pub open spec fn pair_view(e: Option<(String, String)>) -> Option<(Seq<char>, Seq<char>)> {
    match e {
        Some((a, b)) => Some((a@, b@)),
        None => None,
    }
}

/// The view of an optional string.
pub open spec fn opt_view(s: Option<String>) -> Option<Seq<char>> {
    match s {
        Some(t) => Some(t@),
        None => None,
    }
}

impl View for SessionOutcome {
    type V = OutcomeView;

    open spec fn view(&self) -> OutcomeView {
        OutcomeView {
            finals: views(self.finals@),
            error: pair_view(self.error),
            aborted: self.aborted,
            had_speech: self.had_speech,
            duration_ms: self.duration_ms,
        }
    }
}

/// The status of an outcome: aborted, then error, then no speech, then ok.
pub open spec fn status_seq(o: OutcomeView) -> Seq<char> {
    if o.aborted {
        "aborted"@
    } else if o.error is Some {
        "error"@
    } else if o.finals.len() == 0 {
        "no_speech"@
    } else {
        "ok"@
    }
}

impl SessionOutcome {
    /// An outcome with nothing recorded yet.
    pub fn new() -> (o: Self)
        ensures
            o@.finals.len() == 0,
            o@.error is None,
            !o.aborted,
            !o.had_speech,
            o.duration_ms == 0,
    {
        SessionOutcome {
            finals: Vec::new(),
            error: None,
            aborted: false,
            had_speech: false,
            duration_ms: 0,
        }
    }

    /// The `status` of the session-ended event.
    pub fn status(&self) -> (s: &'static str)
        ensures
            s@ == status_seq(self@),
    {
        if self.aborted {
            "aborted"
        } else if self.error.is_some() {
            "error"
        } else if self.finals.len() == 0 {
            "no_speech"
        } else {
            "ok"
        }
    }
}

// ── Finalizing a session ──

pub open spec fn no_result_reason() -> Seq<char> {
    "未收到识别结果"@
}

pub open spec fn no_result_detail() -> Seq<char> {
    "had_speech=true but finals empty at session exit"@
}

/// Speech was confirmed, yet the session ended with no final sentence, no
/// error and no abort: the recognition failed silently.
pub open spec fn silent_failure(o: OutcomeView) -> bool {
    o.error is None && !o.aborted && o.had_speech && o.finals.len() == 0
}

/// The outcome with a silent failure turned into an explicit error.
pub open spec fn promoted(o: OutcomeView) -> OutcomeView {
    if silent_failure(o) {
        OutcomeView { error: Some((no_result_reason(), no_result_detail())), ..o }
    } else {
        o
    }
}

/// The status stored with a transcript record.
pub open spec fn record_status_seq(status: Seq<char>) -> Seq<char> {
    if status == "ok"@ {
        "done"@
    } else if status == "aborted"@ {
        "aborted"@
    } else {
        "partial"@
    }
}

/// A transcript record id: the time in milliseconds, `-`, the generation.
pub open spec fn record_id_seq(now_ms: u64, generation: u64) -> Seq<char> {
    dec_seq(now_ms as nat) + "-"@ + dec_seq(generation as nat)
}

/// What ending a session writes and announces.
pub struct FinalizePlan {
    /// The session-ended event, without a record id.
    pub payload: SessionEndedPayload,
    /// The transcript record to persist, when any text was transcribed.
    pub record: Option<TranscriptRecord>,
}

/// The session-ended event and transcript record for a finished session.
///
/// A silent failure (speech, but no final sentence, error or abort) is
/// reported as an error.  The error reason and detail are announced only
/// when the status is `"error"` (an abort takes priority).  Whatever text
/// was transcribed is kept, also on error and abort, unprocessed.
pub fn plan_session_end(outcome: SessionOutcome, generation: u64, now_ms: u64) -> (p: FinalizePlan)
    ensures
        p.payload.generation == generation,
        p.payload.final_text@ == join_seq(promoted(outcome@).finals, "\n"@),
        p.payload.status@ == status_seq(promoted(outcome@)),
        p.payload.duration_ms == outcome.duration_ms,
        p.payload.record_id is None,
        match promoted(outcome@).error {
            Some((reason, detail)) if !outcome.aborted => opt_view(p.payload.error_reason) == Some(reason)
                && opt_view(p.payload.error_detail) == Some(detail),
            _ => p.payload.error_reason is None && p.payload.error_detail is None,
        },
        (p.record is Some) == (trim(join_seq(promoted(outcome@).finals, "\n"@)).len() > 0),
        p.record matches Some(r) ==> {
            &&& r.id@ == record_id_seq(now_ms, generation)
            &&& r.timestamp == now_ms
            &&& r.original@ == p.payload.final_text@
            &&& r.final_text@ == p.payload.final_text@
            &&& r.optimized is None
            &&& r.duration_ms == outcome.duration_ms
            &&& r.status@ == record_status_seq(p.payload.status@)
        },
{
    let mut outcome = outcome;
    let ghost o0 = outcome@;
    if outcome.error.is_none() && !outcome.aborted && outcome.had_speech && outcome.finals.len()
        == 0 {
        outcome.error = Some((owned("未收到识别结果"), owned("had_speech=true but finals empty at session exit")));
    }
    assert(outcome@ == promoted(o0));
    let status = owned(outcome.status());
    let final_text = join_strings(outcome.finals.as_slice(), "\n");
    let text_chars = chars_of(final_text.as_str());
    let trimmed = trim_chars(text_chars.as_slice());
    let record = if trimmed.len() > 0 {
        let record_status = if str_eq(status.as_str(), "ok") {
            owned("done")
        } else if str_eq(status.as_str(), "aborted") {
            owned("aborted")
        } else {
            owned("partial")
        };
        let mut id = u64_to_dec(now_ms);
        push_str(&mut id, "-");
        let g = u64_to_dec(generation);
        push_str(&mut id, g.as_str());
        Some(
            TranscriptRecord {
                id,
                timestamp: now_ms,
                original: final_text.clone(),
                final_text: final_text.clone(),
                optimized: None,
                duration_ms: outcome.duration_ms,
                status: record_status,
            },
        )
    } else {
        None
    };
    let aborted = outcome.aborted;
    let (error_reason, error_detail) = match outcome.error {
        Some((reason, detail)) => if aborted {
            (None, None)
        } else {
            (Some(reason), Some(detail))
        },
        None => (None, None),
    };
    FinalizePlan {
        payload: SessionEndedPayload {
            generation,
            final_text,
            status,
            error_reason,
            error_detail,
            duration_ms: outcome.duration_ms,
            record_id: None,
        },
        record,
    }
}


// ── Error classification ──

/// The user-facing reason for a raw provider error, decided on the ASCII
/// lower-cased text.
pub open spec fn classify_spec(raw: Seq<char>) -> Seq<char> {
    let l = lower_seq(raw);
    if contains_seq(l, "401"@) || contains_seq(l, "403"@) || contains_seq(l, "鉴权"@)
        || contains_seq(l, "unauthorized"@) {
        "语音服务鉴权失败"@
    } else if contains_seq(l, "45000081"@) || contains_seq(l, "timeout"@) || contains_seq(
        l,
        "超时"@,
    ) {
        "语音服务响应超时"@
    } else if contains_seq(l, "45000151"@) || contains_seq(l, "音频格式"@) {
        "音频格式不正确"@
    } else if contains_seq(l, "连接"@) || contains_seq(l, "websocket"@) || contains_seq(
        l,
        "network"@,
    ) || contains_seq(l, "io error"@) {
        "语音服务连接失败，检查网络后重试"@
    } else {
        "语音识别出错"@
    }
}

/// Maps a raw provider error to the short reason shown to the user.
pub fn classify_error(raw: &str) -> (r: String)
    ensures
        r@ == classify_spec(raw@),
{
    let v = chars_of(raw);
    let l = lower_chars(v.as_slice());
    let l = l.as_slice();
    if contains_lit(l, "401") || contains_lit(l, "403") || contains_lit(l, "鉴权") || contains_lit(
        l,
        "unauthorized",
    ) {
        owned("语音服务鉴权失败")
    } else if contains_lit(l, "45000081") || contains_lit(l, "timeout") || contains_lit(l, "超时") {
        owned("语音服务响应超时")
    } else if contains_lit(l, "45000151") || contains_lit(l, "音频格式") {
        owned("音频格式不正确")
    } else if contains_lit(l, "连接") || contains_lit(l, "websocket") || contains_lit(l, "network")
        || contains_lit(l, "io error") {
        owned("语音服务连接失败，检查网络后重试")
    } else {
        owned("语音识别出错")
    }
}

impl SessionOutcome {
    /// Records a failure: the raw detail and its classified reason.
    pub fn fail(&mut self, detail: String)
        ensures
            final(self)@ == (OutcomeView {
                error: Some((classify_spec(detail@), detail@)),
                ..old(self)@
            }),
    {
        let reason = classify_error(detail.as_str());
        self.error = Some((reason, detail));
    }
}

// ── Waiting for speech ──

/// Whether a session waits indefinitely for the first speech: system-audio
/// capture with automatic stop switched off.
pub fn should_skip_timeout(settings: &AppSettings) -> (b: bool)
    ensures
        b == (settings.audio_source@ == "system"@ && settings.system_no_auto_stop),
{
    str_eq(settings.audio_source.as_str(), "system") && settings.system_no_auto_stop
}

/// Seconds to wait for the first speech: a day when the timeout is
/// skipped, else 30.
pub fn no_speech_timeout_secs(no_timeout: bool) -> (n: u64)
    ensures
        n == if no_timeout { 86400u64 } else { 30u64 },
{
    if no_timeout {
        86400
    } else {
        30
    }
}

/// The message logged when no speech arrived in time.
pub fn no_speech_timeout_message(no_timeout: bool) -> (m: &'static str)
    ensures
        m@ == if no_timeout {
            "长时间未检测到语音，自动取消"@
        } else {
            "30 秒未检测到语音，自动取消"@
        },
{
    if no_timeout {
        "长时间未检测到语音，自动取消"
    } else {
        "30 秒未检测到语音，自动取消"
    }
}

/// What one audio frame tells about the start of speech.
#[derive(Debug, Clone, Copy, PartialEq, Eq)]
pub enum SpeechStartObservation {
    /// Speech inside the hotkey guard window: taken for key noise.
    Guarded,
    /// Not (yet) enough consecutive speech.
    Pending,
    /// Speech has started.
    Confirmed,
}

/// The consecutive-hit count after a frame.
pub open spec fn observe_hits(hits: int, has_speech: bool, elapsed_ms: u64) -> int {
    if has_speech {
        if elapsed_ms < HOTKEY_NOISE_GUARD_MS {
            0
        } else {
            hits + 1
        }
    } else {
        0
    }
}

/// The observation for a frame, given the count before it.
pub open spec fn observe_result(hits: int, has_speech: bool, elapsed_ms: u64) -> SpeechStartObservation {
    if has_speech && elapsed_ms < HOTKEY_NOISE_GUARD_MS {
        SpeechStartObservation::Guarded
    } else if observe_hits(hits, has_speech, elapsed_ms) >= SPEECH_START_MIN_HITS {
        SpeechStartObservation::Confirmed
    } else {
        SpeechStartObservation::Pending
    }
}

/// Counts consecutive speech frames after the hotkey guard window and
/// reports when speech has started.
pub fn observe_speech_start(consecutive_speech_hits: &mut u32, frame_has_speech: bool, elapsed_ms: u64) -> (r: SpeechStartObservation)
    requires
        frame_has_speech && elapsed_ms >= HOTKEY_NOISE_GUARD_MS ==> *old(consecutive_speech_hits) < u32::MAX,
    ensures
        *final(consecutive_speech_hits) == observe_hits(*old(consecutive_speech_hits) as int, frame_has_speech, elapsed_ms),
        r == observe_result(*old(consecutive_speech_hits) as int, frame_has_speech, elapsed_ms),
{
    if frame_has_speech {
        if elapsed_ms < HOTKEY_NOISE_GUARD_MS {
            *consecutive_speech_hits = 0;
            return SpeechStartObservation::Guarded;
        }
        *consecutive_speech_hits = *consecutive_speech_hits + 1;
    } else {
        *consecutive_speech_hits = 0;
    }
    if *consecutive_speech_hits >= SPEECH_START_MIN_HITS {
        SpeechStartObservation::Confirmed
    } else {
        SpeechStartObservation::Pending
    }
}

/// A frame counts towards speech start: speech after the guard window.
pub open spec fn is_hit(frame: (bool, u64)) -> bool {
    frame.0 && frame.1 >= HOTKEY_NOISE_GUARD_MS
}

/// The hit count after a run of `(has_speech, elapsed_ms)` frames.
pub open spec fn hits_after(start: int, frames: Seq<(bool, u64)>) -> int
    decreases frames.len(),
{
    if frames.len() == 0 {
        start
    } else {
        observe_hits(hits_after(start, frames.drop_last()), frames.last().0, frames.last().1)
    }
}

/// The number of hits at the end of a run of frames.
pub open spec fn trailing_hits(frames: Seq<(bool, u64)>) -> nat
    decreases frames.len(),
{
    if frames.len() == 0 {
        0
    } else if is_hit(frames.last()) {
        trailing_hits(frames.drop_last()) + 1
    } else {
        0
    }
}

/// From a fresh count, the count is exactly the number of consecutive
/// post-guard speech frames that end the run: silence or guarded noise
/// resets it, so speech starts only after that many frames in a row.
pub proof fn lemma_hits_count_trailing_speech(frames: Seq<(bool, u64)>)
    ensures
        hits_after(0, frames) == trailing_hits(frames),
    decreases frames.len(),
{
    if frames.len() > 0 {
        lemma_hits_count_trailing_speech(frames.drop_last());
    }
}

/// Audio kept while waiting for speech: about one second (16 kHz, 16-bit
/// mono).
pub const PRE_SPEECH_BUFFER_MAX: usize = 32000;

/// The look-back buffer after appending: once it exceeds twice the maximum
/// it is cut back to the newest `PRE_SPEECH_BUFFER_MAX` bytes.
pub open spec fn bounded_pre_buffer(b: Seq<u8>) -> Seq<u8> {
    if b.len() > 2 * PRE_SPEECH_BUFFER_MAX {
        b.subrange(b.len() - PRE_SPEECH_BUFFER_MAX, b.len() as int)
    } else {
        b
    }
}

/// State while waiting for the first speech of a session.
pub struct SpeechWaiter {
    /// Audio received so far, sent to the recognizer once speech starts.
    pub pre_buffer: Vec<u8>,
    pub consecutive_speech_hits: u32,
}

impl SpeechWaiter {
    pub fn new() -> (w: Self)
        ensures
            w.pre_buffer@.len() == 0,
            w.consecutive_speech_hits == 0,
    {
        SpeechWaiter { pre_buffer: Vec::new(), consecutive_speech_hits: 0 }
    }

    /// Takes one audio frame: buffers it, observes speech start and, unless
    /// speech was confirmed, bounds the buffer.
    pub fn on_frame(&mut self, pcm: &[u8], has_speech: bool, elapsed_ms: u64) -> (r: SpeechStartObservation)
        requires
            has_speech && elapsed_ms >= HOTKEY_NOISE_GUARD_MS ==> old(self).consecutive_speech_hits < u32::MAX,
        ensures
            r == observe_result(old(self).consecutive_speech_hits as int, has_speech, elapsed_ms),
            final(self).consecutive_speech_hits == observe_hits(
                old(self).consecutive_speech_hits as int,
                has_speech,
                elapsed_ms,
            ),
            final(self).pre_buffer@ == if r == SpeechStartObservation::Confirmed {
                old(self).pre_buffer@ + pcm@
            } else {
                bounded_pre_buffer(old(self).pre_buffer@ + pcm@)
            },
    {
        extend_bytes(&mut self.pre_buffer, pcm);
        let r = observe_speech_start(&mut self.consecutive_speech_hits, has_speech, elapsed_ms);
        let confirmed = matches!(r, SpeechStartObservation::Confirmed);
        if !confirmed && self.pre_buffer.len() > PRE_SPEECH_BUFFER_MAX * 2 {
            let drain_to = self.pre_buffer.len() - PRE_SPEECH_BUFFER_MAX;
            let kept = bytes_from(self.pre_buffer.as_slice(), drain_to);
            self.pre_buffer = kept;
        }
        r
    }
}

} // verus!
