//! DashScope (百炼, Alibaba Cloud) real-time recognition: endpoints, the
//! task messages and how its replies are read.
use vstd::prelude::*;
use super::session::{ReaderEvent, StreamPolicy};
use crate::text::{owned, push_str, str_eq, dec_seq};

verus! {

/// DashScope credentials and model.
#[derive(Debug, Clone)]
pub struct DashScopeSettings {
    pub api_key: String,
    pub model: String,
    pub region: String,
}

/// The DashScope provider.
#[derive(Debug, Clone)]
pub struct DashScopeProvider {
    pub settings: DashScopeSettings,
}

/// The inference endpoint of a region: the international one for
/// `"singapore"`, else the mainland one.
pub fn dashscope_endpoint(region: &str) -> (url: &'static str)
    ensures
        url@ == if region@ == "singapore"@ {
            "wss://dashscope-intl.aliyuncs.com/api-ws/v1/inference"@
        } else {
            "wss://dashscope.aliyuncs.com/api-ws/v1/inference"@
        },
{
    if str_eq(region, "singapore") {
        "wss://dashscope-intl.aliyuncs.com/api-ws/v1/inference"
    } else {
        "wss://dashscope.aliyuncs.com/api-ws/v1/inference"
    }
}

/// The `Authorization` header value for an API key.
pub fn bearer_auth(api_key: &str) -> (h: String)
    ensures
        h@ == "Bearer "@ + api_key@,
{
    let mut h = owned("Bearer ");
    push_str(&mut h, api_key);
    h
}

/// Audio chunk size: 200 ms of 16 kHz 16-bit mono.
pub const DASHSCOPE_CHUNK_SIZE: usize = 6400;

/// A DashScope session ends streaming on the task's end, and a failed send
/// fails it.
pub fn dashscope_policy() -> (p: StreamPolicy)
    ensures
        p.stop_on_done,
        p.send_failure_fatal,
{
    StreamPolicy { stop_on_done: true, send_failure_fatal: true }
}

/// The `header` of a task message.
#[derive(Debug, Clone)]
pub struct DashScopeTaskHeader {
    pub action: String,
    pub task_id: String,
    pub streaming: String,
}

/// The `run-task` message that starts recognition.
#[derive(Debug, Clone)]
pub struct DashScopeRunTask {
    pub header: DashScopeTaskHeader,
    pub task_group: String,
    pub task: String,
    pub function: String,
    pub model: String,
    pub format: String,
    pub sample_rate: u32,
}

/// The `run-task` message: duplex streaming of 16 kHz PCM to the audio
/// recognition task of `model`.
pub fn dashscope_run_task(task_id: &str, model: &str) -> (m: DashScopeRunTask)
    ensures
        m.header.action@ == "run-task"@,
        m.header.task_id@ == task_id@,
        m.header.streaming@ == "duplex"@,
        m.task_group@ == "audio"@,
        m.task@ == "asr"@,
        m.function@ == "recognition"@,
        m.model@ == model@,
        m.format@ == "pcm"@,
        m.sample_rate == 16000,
{
    DashScopeRunTask {
        header: DashScopeTaskHeader {
            action: owned("run-task"),
            task_id: owned(task_id),
            streaming: owned("duplex"),
        },
        task_group: owned("audio"),
        task: owned("asr"),
        function: owned("recognition"),
        model: owned(model),
        format: owned("pcm"),
        sample_rate: 16000,
    }
}

/// The `finish-task` message header, sent after the last audio.
pub fn dashscope_finish_task(task_id: &str) -> (h: DashScopeTaskHeader)
    ensures
        h.action@ == "finish-task"@,
        h.task_id@ == task_id@,
        h.streaming@ == "duplex"@,
{
    DashScopeTaskHeader {
        action: owned("finish-task"),
        task_id: owned(task_id),
        streaming: owned("duplex"),
    }
}

/// The fields of a reply that recognition depends on.
#[derive(Debug, Clone)]
pub struct DashScopeReply {
    /// `header.event`; empty when absent.
    pub event: String,
    /// `payload.output.sentence.heartbeat`.
    pub heartbeat: bool,
    /// `payload.output.sentence.text`; empty when absent.
    pub text: String,
    /// `payload.output.sentence.sentence_end`.
    pub sentence_end: bool,
    /// `header.status_code`; 0 when absent.
    pub status_code: i64,
    /// `header.status_message`.
    pub status_message: Option<String>,
}

/// What reading one reply yields.
pub struct ReaderStep {
    /// A transcription to show: text and whether it is final.
    pub update: Option<(String, bool)>,
    /// A message for the session.
    pub event: Option<ReaderEvent>,
    /// The reader stops after this reply.
    pub stop_reading: bool,
}

pub open spec fn update_view(u: Option<(String, bool)>) -> Option<(Seq<char>, bool)> {
    match u {
        Some((t, f)) => Some((t@, f)),
        None => None,
    }
}

/// The event a step reports, with its text as a character sequence.
pub enum EventView {
    Ready,
    Final(Seq<char>),
    Error(Seq<char>),
    Done,
    Closed,
}

pub open spec fn event_view(e: Option<ReaderEvent>) -> Option<EventView> {
    match e {
        Some(ReaderEvent::Ready) => Some(EventView::Ready),
        Some(ReaderEvent::Final(t)) => Some(EventView::Final(t@)),
        Some(ReaderEvent::Error(d)) => Some(EventView::Error(d@)),
        Some(ReaderEvent::Done) => Some(EventView::Done),
        Some(ReaderEvent::Closed) => Some(EventView::Closed),
        None => None,
    }
}

/// Decimal text of a signed integer (as `format!("{}", n)`).
pub open spec fn signed_dec_seq(n: int) -> Seq<char> {
    if n < 0 {
        "-"@ + dec_seq((-n) as nat)
    } else {
        dec_seq(n as nat)
    }
}

/// The raw detail of a failed task.
pub open spec fn task_failed_seq(code: i64, message: Option<Seq<char>>) -> Seq<char> {
    "DashScope ASR 错误 "@ + signed_dec_seq(code as int) + ": "@ + match message {
        Some(m) => m,
        None => "未知错误"@,
    }
}

pub open spec fn opt_seq(s: Option<String>) -> Option<Seq<char>> {
    match s {
        Some(t) => Some(t@),
        None => None,
    }
}

/// Decimal text of a signed 64-bit integer.
pub fn i64_to_dec(n: i64) -> (s: String)
    ensures
        s@ == signed_dec_seq(n as int),
{
    if n < 0 {
        let m: u64 = if n == i64::MIN {
            9223372036854775808u64
        } else {
            (-n) as u64
        };
        let mut s = owned("-");
        let d = crate::text::u64_to_dec(m);
        push_str(&mut s, d.as_str());
        s
    } else {
        crate::text::u64_to_dec(n as u64)
    }
}

/// Reads one reply: the task start, results (heartbeats skipped; each
/// non-empty text is shown, and a sentence end is also a final sentence),
/// the task's end and its failure.  Other events yield nothing.
pub fn dashscope_read(reply: &DashScopeReply) -> (s: ReaderStep)
    ensures
        if reply.event@ == "task-started"@ {
            s.update is None && event_view(s.event) == Some(EventView::Ready) && !s.stop_reading
        } else if reply.event@ == "result-generated"@ {
            &&& !s.stop_reading
            &&& if reply.heartbeat || reply.text@.len() == 0 {
                s.update is None && s.event is None
            } else {
                &&& update_view(s.update) == Some((reply.text@, reply.sentence_end))
                &&& event_view(s.event) == if reply.sentence_end {
                    Some(EventView::Final(reply.text@))
                } else {
                    None
                }
            }
        } else if reply.event@ == "task-finished"@ {
            s.update is None && event_view(s.event) == Some(EventView::Done) && s.stop_reading
        } else if reply.event@ == "task-failed"@ {
            &&& s.update is None
            &&& event_view(s.event) == Some(
                EventView::Error(task_failed_seq(reply.status_code, opt_seq(reply.status_message))),
            )
            &&& s.stop_reading
        } else {
            s.update is None && s.event is None && !s.stop_reading
        },
{
    let ev = reply.event.as_str();
    if str_eq(ev, "task-started") {
        ReaderStep { update: None, event: Some(ReaderEvent::Ready), stop_reading: false }
    } else if str_eq(ev, "result-generated") {
        if reply.heartbeat || reply.text.as_str().is_empty() {
            ReaderStep { update: None, event: None, stop_reading: false }
        } else {
            let event = if reply.sentence_end {
                Some(ReaderEvent::Final(reply.text.clone()))
            } else {
                None
            };
            ReaderStep {
                update: Some((reply.text.clone(), reply.sentence_end)),
                event,
                stop_reading: false,
            }
        }
    } else if str_eq(ev, "task-finished") {
        ReaderStep { update: None, event: Some(ReaderEvent::Done), stop_reading: true }
    } else if str_eq(ev, "task-failed") {
        let mut d = owned("DashScope ASR 错误 ");
        let c = i64_to_dec(reply.status_code);
        push_str(&mut d, c.as_str());
        push_str(&mut d, ": ");
        match &reply.status_message {
            Some(m) => push_str(&mut d, m.as_str()),
            None => push_str(&mut d, "未知错误"),
        }
        ReaderStep { update: None, event: Some(ReaderEvent::Error(d)), stop_reading: true }
    } else {
        ReaderStep { update: None, event: None, stop_reading: false }
    }
}

/// The raw detail of a connection error.
pub fn dashscope_connection_error(e: &str) -> (d: String)
    ensures
        d@ == "DashScope 连接错误: "@ + e@,
{
    let mut d = owned("DashScope 连接错误: ");
    push_str(&mut d, e);
    d
}

} // verus!
