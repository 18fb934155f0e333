//! Qwen ASR (千问, DashScope realtime) recognition: the endpoint with its
//! percent-encoded model, the session and audio messages, and how its
//! replies are read.
use vstd::prelude::*;
use vstd::utf8::encode_utf8;
use base64::Engine;
use super::dashscope::{event_view, update_view, EventView, ReaderStep, opt_seq};
use super::session::{ReaderEvent, StreamPolicy};
use crate::text::{owned, push_char, push_str, str_eq, dec_seq, hex2_seq, u64_to_dec, u8_to_hex2};

verus! {

/// Qwen credentials, model and language.
#[derive(Debug, Clone)]
pub struct QwenSettings {
    pub api_key: String,
    pub model: String,
    pub region: String,
    pub language: String,
}

/// The Qwen provider.
#[derive(Debug, Clone)]
pub struct QwenProvider {
    pub settings: QwenSettings,
}

/// The realtime endpoint of a region: the international one for
/// `"singapore"`, else the mainland one.
pub fn qwen_base_url(region: &str) -> (url: &'static str)
    ensures
        url@ == if region@ == "singapore"@ {
            "wss://dashscope-intl.aliyuncs.com/api-ws/v1/realtime"@
        } else {
            "wss://dashscope.aliyuncs.com/api-ws/v1/realtime"@
        },
{
    if str_eq(region, "singapore") {
        "wss://dashscope-intl.aliyuncs.com/api-ws/v1/realtime"
    } else {
        "wss://dashscope.aliyuncs.com/api-ws/v1/realtime"
    }
}

/// Bytes left as they are in the model query parameter: ASCII letters and
/// digits, `-`, `_` and `.`.
pub open spec fn url_safe(b: u8) -> bool {
    (48 <= b <= 57) || (65 <= b <= 90) || (97 <= b <= 122) || b == 45 || b == 95 || b == 46
}

/// One byte of the query parameter: itself when safe, else `%XX` with
/// upper-case hexadecimal digits.
pub open spec fn encode_byte(b: u8) -> Seq<char> {
    if url_safe(b) {
        seq![b as char]
    } else {
        seq!['%'] + hex2_seq(b)
    }
}

/// Percent-encoding of a byte sequence, byte by byte.
pub open spec fn encode_bytes(s: Seq<u8>) -> Seq<char>
    decreases s.len(),
{
    if s.len() == 0 {
        Seq::empty()
    } else {
        encode_bytes(s.drop_last()) + encode_byte(s.last())
    }
}

/// Percent-encodes the UTF-8 bytes of a model name for the URL query.
pub fn encode_model(model: &str) -> (e: String)
    ensures
        e@ == encode_bytes(encode_utf8(model@)),
{
    let bytes = model.as_bytes();
    let mut e = String::new();
    let mut i: usize = 0;
    while i < bytes.len()
        invariant
            i <= bytes@.len(),
            bytes@ == encode_utf8(model@),
            e@ == encode_bytes(bytes@.take(i as int)),
        decreases bytes@.len() - i,
    {
        let b = bytes[i];
        assert(bytes@.take((i + 1) as int).drop_last() =~= bytes@.take(i as int));
        let safe = (48 <= b && b <= 57) || (65 <= b && b <= 90) || (97 <= b && b <= 122) || b
            == 45 || b == 95 || b == 46;
        if safe {
            push_char(&mut e, b as char);
            assert(e@ =~= encode_bytes(bytes@.take(i as int)) + encode_byte(b));
        } else {
            push_char(&mut e, '%');
            let h = u8_to_hex2(b);
            push_str(&mut e, h.as_str());
            assert(e@ =~= encode_bytes(bytes@.take(i as int)) + encode_byte(b));
        }
        i = i + 1;
    }
    assert(bytes@.take(i as int) =~= bytes@);
    e
}

/// The connection URL: the regional endpoint with the encoded model.
pub fn qwen_url(region: &str, model: &str) -> (url: String)
    ensures
        url@ == (if region@ == "singapore"@ {
            "wss://dashscope-intl.aliyuncs.com/api-ws/v1/realtime"@
        } else {
            "wss://dashscope.aliyuncs.com/api-ws/v1/realtime"@
        }) + "?model="@ + encode_bytes(encode_utf8(model@)),
{
    let mut url = owned(qwen_base_url(region));
    push_str(&mut url, "?model=");
    let m = encode_model(model);
    push_str(&mut url, m.as_str());
    url
}

/// Audio chunk size: 100 ms of 16 kHz 16-bit mono.
pub const QWEN_CHUNK_SIZE: usize = 3200;

/// A Qwen session ends streaming when the session finishes, and a failed
/// send fails it.
pub fn qwen_policy() -> (p: StreamPolicy)
    ensures
        p.stop_on_done,
        p.send_failure_fatal,
{
    StreamPolicy { stop_on_done: true, send_failure_fatal: true }
}

/// The `session.update` message, as plain values.  Turn detection is the
/// server's voice activity detection with a threshold of 0 and 400 ms of
/// silence.
#[derive(Debug, Clone)]
pub struct QwenSessionUpdate {
    pub event_id: String,
    pub kind: String,
    pub modalities: Vec<String>,
    pub input_audio_format: String,
    pub sample_rate: u32,
    pub language: String,
    pub turn_detection: String,
    pub silence_duration_ms: u32,
}

/// The `session.update` message: text output from 16 kHz PCM input in
/// `language`, with server-side voice activity detection.
pub fn qwen_session_update(event_id: String, language: &str) -> (m: QwenSessionUpdate)
    ensures
        m.event_id == event_id,
        m.kind@ == "session.update"@,
        m.modalities@.len() == 1,
        m.modalities@[0]@ == "text"@,
        m.input_audio_format@ == "pcm"@,
        m.sample_rate == 16000,
        m.language@ == language@,
        m.turn_detection@ == "server_vad"@,
        m.silence_duration_ms == 400,
{
    let mut modalities: Vec<String> = Vec::new();
    modalities.push(owned("text"));
    QwenSessionUpdate {
        event_id,
        kind: owned("session.update"),
        modalities,
        input_audio_format: owned("pcm"),
        sample_rate: 16000,
        language: owned(language),
        turn_detection: owned("server_vad"),
        silence_duration_ms: 400,
    }
}

/// The event id of the `n`-th audio message: `evt_audio_<n>`.
pub fn audio_event_id(n: u64) -> (id: String)
    ensures
        id@ == "evt_audio_"@ + dec_seq(n as nat),
{
    let mut id = owned("evt_audio_");
    let d = u64_to_dec(n);
    push_str(&mut id, d.as_str());
    id
}

/// The fields of a reply that recognition depends on.
#[derive(Debug, Clone)]
pub struct QwenReply {
    /// `type`; empty when absent.
    pub kind: String,
    /// Confirmed interim text (`text`).
    pub text: Option<String>,
    /// Tentative interim text (`stash`).
    pub stash: Option<String>,
    /// The final sentence (`transcript`).
    pub transcript: Option<String>,
    /// `error.message`.
    pub error_message: Option<String>,
}

pub open spec fn or_empty(s: Option<Seq<char>>) -> Seq<char> {
    match s {
        Some(t) => t,
        None => Seq::empty(),
    }
}

pub open spec fn or_default(s: Option<Seq<char>>, d: Seq<char>) -> Seq<char> {
    match s {
        Some(t) => t,
        None => d,
    }
}

fn text_or<'a>(s: &'a Option<String>, d: &'a str) -> (r: &'a str)
    ensures
        r@ == or_default(opt_seq(*s), d@),
{
    match s {
        Some(t) => t.as_str(),
        None => d,
    }
}

/// Reads one reply: the session's readiness, interim text (confirmed text
/// followed by the tentative stash), final sentences, failures and the
/// session's end.  A failed transcription is reported and reading goes on;
/// an error ends reading.  Other events yield nothing.
pub fn qwen_read(reply: &QwenReply) -> (s: ReaderStep)
    ensures
        if reply.kind@ == "session.updated"@ {
            s.update is None && event_view(s.event) == Some(EventView::Ready) && !s.stop_reading
        } else if reply.kind@ == "conversation.item.input_audio_transcription.text"@ {
            let combined = or_empty(opt_seq(reply.text)) + or_empty(opt_seq(reply.stash));
            &&& s.event is None
            &&& !s.stop_reading
            &&& update_view(s.update) == if combined.len() > 0 {
                Some((combined, false))
            } else {
                None
            }
        } else if reply.kind@ == "conversation.item.input_audio_transcription.completed"@ {
            let t = or_empty(opt_seq(reply.transcript));
            &&& !s.stop_reading
            &&& if t.len() > 0 {
                update_view(s.update) == Some((t, true)) && event_view(s.event) == Some(
                    EventView::Final(t),
                )
            } else {
                s.update is None && s.event is None
            }
        } else if reply.kind@ == "conversation.item.input_audio_transcription.failed"@ {
            &&& s.update is None
            &&& event_view(s.event) == Some(
                EventView::Error(
                    "Qwen ASR 转写失败: "@ + or_default(opt_seq(reply.error_message), "转写失败"@),
                ),
            )
            &&& !s.stop_reading
        } else if reply.kind@ == "error"@ {
            &&& s.update is None
            &&& event_view(s.event) == Some(
                EventView::Error(
                    "Qwen ASR 错误: "@ + or_default(opt_seq(reply.error_message), "未知错误"@),
                ),
            )
            &&& s.stop_reading
        } else if reply.kind@ == "session.finished"@ {
            s.update is None && event_view(s.event) == Some(EventView::Done) && s.stop_reading
        } else {
            s.update is None && s.event is None && !s.stop_reading
        },
{
    let k = reply.kind.as_str();
    if str_eq(k, "session.updated") {
        ReaderStep { update: None, event: Some(ReaderEvent::Ready), stop_reading: false }
    } else if str_eq(k, "conversation.item.input_audio_transcription.text") {
        let mut combined = owned(text_or(&reply.text, ""));
        push_str(&mut combined, text_or(&reply.stash, ""));
        proof {
            reveal_strlit("");
        }
        assert(or_empty(opt_seq(reply.text)) == or_default(opt_seq(reply.text), ""@));
        assert(or_empty(opt_seq(reply.stash)) == or_default(opt_seq(reply.stash), ""@));
        let update = if combined.as_str().is_empty() {
            None
        } else {
            Some((combined, false))
        };
        ReaderStep { update, event: None, stop_reading: false }
    } else if str_eq(k, "conversation.item.input_audio_transcription.completed") {
        let t = owned(text_or(&reply.transcript, ""));
        proof {
            reveal_strlit("");
        }
        assert(or_empty(opt_seq(reply.transcript)) == or_default(opt_seq(reply.transcript), ""@));
        if t.as_str().is_empty() {
            ReaderStep { update: None, event: None, stop_reading: false }
        } else {
            ReaderStep {
                update: Some((t.clone(), true)),
                event: Some(ReaderEvent::Final(t)),
                stop_reading: false,
            }
        }
    } else if str_eq(k, "conversation.item.input_audio_transcription.failed") {
        let mut d = owned("Qwen ASR 转写失败: ");
        push_str(&mut d, text_or(&reply.error_message, "转写失败"));
        ReaderStep { update: None, event: Some(ReaderEvent::Error(d)), stop_reading: false }
    } else if str_eq(k, "error") {
        let mut d = owned("Qwen ASR 错误: ");
        push_str(&mut d, text_or(&reply.error_message, "未知错误"));
        ReaderStep { update: None, event: Some(ReaderEvent::Error(d)), stop_reading: true }
    } else if str_eq(k, "session.finished") {
        ReaderStep { update: None, event: Some(ReaderEvent::Done), stop_reading: true }
    } else {
        ReaderStep { update: None, event: None, stop_reading: false }
    }
}

/// The raw detail of a connection error.
pub fn qwen_connection_error(e: &str) -> (d: String)
    ensures
        d@ == "Qwen 连接错误: "@ + e@,
{
    let mut d = owned("Qwen 连接错误: ");
    push_str(&mut d, e);
    d
}


// ── Audio and finish messages ──

/// The character of the standard base64 alphabet for a 6-bit value.
pub open spec fn b64_digit(v: int) -> char {
    if v < 26 {
        (65 + v) as char
    } else if v < 52 {
        (97 + v - 26) as char
    } else if v < 62 {
        (48 + v - 52) as char
    } else if v == 62 {
        '+'
    } else {
        '/'
    }
}

/// Standard base64 with padding (RFC 4648, section 4): every three bytes
/// give four characters of six bits each; one or two final bytes give two
/// or three characters followed by `=` padding to four.
pub open spec fn base64_standard(d: Seq<u8>) -> Seq<char>
    decreases d.len(),
{
    if d.len() == 0 {
        Seq::<char>::empty()
    } else if d.len() == 1 {
        seq![b64_digit(d[0] as int / 4), b64_digit((d[0] as int % 4) * 16), '=', '=']
    } else if d.len() == 2 {
        seq![
            b64_digit(d[0] as int / 4),
            b64_digit((d[0] as int % 4) * 16 + d[1] as int / 16),
            b64_digit((d[1] as int % 16) * 4),
            '=',
        ]
    } else {
        seq![
            b64_digit(d[0] as int / 4),
            b64_digit((d[0] as int % 4) * 16 + d[1] as int / 16),
            b64_digit((d[1] as int % 16) * 4 + d[2] as int / 64),
            b64_digit(d[2] as int % 64),
        ] + base64_standard(d.skip(3))
    }
}

/// Standard base64 encoding of `data` (the `base64` crate's `STANDARD`
/// engine, which pads).  Claimed: the result is [`base64_standard`] of the
/// bytes.
#[verifier::external_body]
fn base64_encode(data: &[u8]) -> (s: String)
    ensures
        s@ == base64_standard(data@),
{
    base64::engine::general_purpose::STANDARD.encode(data)
}

/// An `input_audio_buffer.append` message.
#[derive(Debug, Clone)]
pub struct QwenAudioAppend {
    pub event_id: String,
    pub kind: String,
    /// The audio, base64-encoded.
    pub audio: String,
}

/// The `n`-th audio message carrying already-encoded audio.
pub fn qwen_audio_append(n: u64, audio_b64: String) -> (m: QwenAudioAppend)
    ensures
        m.event_id@ == "evt_audio_"@ + dec_seq(n as nat),
        m.kind@ == "input_audio_buffer.append"@,
        m.audio == audio_b64,
{
    QwenAudioAppend {
        event_id: audio_event_id(n),
        kind: owned("input_audio_buffer.append"),
        audio: audio_b64,
    }
}

/// The `n`-th audio message for a chunk of PCM audio.
pub fn qwen_audio_message(n: u64, chunk: &[u8]) -> (m: QwenAudioAppend)
    ensures
        m.event_id@ == "evt_audio_"@ + dec_seq(n as nat),
        m.kind@ == "input_audio_buffer.append"@,
        m.audio@ == base64_standard(chunk@),
{
    let b = base64_encode(chunk);
    qwen_audio_append(n, b)
}

/// A message with only an event id and a type.
#[derive(Debug, Clone)]
pub struct QwenControl {
    pub event_id: String,
    pub kind: String,
}

/// The `session.finish` message that ends the audio.
pub fn qwen_session_finish(event_id: String) -> (m: QwenControl)
    ensures
        m.event_id == event_id,
        m.kind@ == "session.finish"@,
{
    QwenControl { event_id, kind: owned("session.finish") }
}

} // verus!
