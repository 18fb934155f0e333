//! The recording lifecycle: starting a session, stopping it, aborting it,
//! and cleaning up when its recognition task ends.
//!
//! Every session gets a new generation number.  A recognition task keeps
//! running after its session is stopped (to collect the last results), so
//! when it ends it must only tear down capture if its session is still the
//! current one.  The caller owns the devices and channels; this state
//! machine decides what to do with them.
use vstd::prelude::*;
use crate::asr::doubao::{doubao_mode_from_setting, DoubaoMode, DoubaoProvider, DoubaoSettings};
use crate::asr::dashscope::{DashScopeProvider, DashScopeSettings};
use crate::asr::qwen::{QwenProvider, QwenSettings};
use crate::settings::{
    audio_source_label, credentials_spec, input_mode_label, provider_label,
    validate_provider_credentials, AppSettings, SessionAbortPayload,
};
use crate::text::{dec_seq, owned, push_str, str_eq, u64_to_dec};

verus! {

/// What the lifecycle knows of the current session and the capture devices.
#[derive(Debug, Clone, Copy, PartialEq, Eq)]
pub struct Recorder {
    pub is_recording: bool,
    /// Generation of the latest session.
    pub generation: u64,
    /// The microphone stream is open.
    pub mic_open: bool,
    /// System-audio capture is running.
    pub loopback_active: bool,
    /// The current session's stop signal has not been sent yet.
    pub stop_pending: bool,
}

/// A session that was allowed to start.
#[derive(Debug, Clone, Copy, PartialEq, Eq)]
pub struct StartTicket {
    pub generation: u64,
    /// The microphone must be opened first.
    pub needs_mic: bool,
}

/// What stopping the current session involves.
#[derive(Debug, Clone, Copy, PartialEq, Eq)]
pub struct StopTicket {
    pub generation: u64,
    /// Voice activity had been confirmed when the session was stopped.
    pub had_speech: bool,
    /// Send the recognition task its stop signal.
    pub signal_stop: bool,
    /// Stop system-audio capture.
    pub stop_loopback: bool,
    /// Stop forwarding microphone audio (the stream stays open).
    pub stop_mic_forwarding: bool,
}

/// What to do when a session's recognition task ends.
#[derive(Debug, Clone, Copy, PartialEq, Eq)]
pub struct TaskEnd {
    /// The task's session was still recording: capture stops now.
    pub stop_capture: bool,
    pub stop_loopback: bool,
    pub stop_mic_forwarding: bool,
    /// Close the microphone stream.
    pub release_mic: bool,
}

/// Starting: ignored while recording; otherwise a new generation.
pub open spec fn start_spec(r: Recorder, use_loopback: bool) -> (Recorder, Option<StartTicket>) {
    if r.is_recording {
        (r, None)
    } else {
        (
            Recorder { is_recording: true, generation: (r.generation + 1) as u64, ..r },
            Some(
                StartTicket {
                    generation: (r.generation + 1) as u64,
                    needs_mic: !use_loopback && !r.mic_open,
                },
            ),
        )
    }
}

/// Stopping: ignored when idle; otherwise every capture is told to stop and
/// the session is no longer recording.
pub open spec fn stop_spec(r: Recorder, had_speech: bool) -> (Recorder, Option<StopTicket>) {
    if !r.is_recording {
        (r, None)
    } else {
        (
            Recorder { is_recording: false, loopback_active: false, stop_pending: false, ..r },
            Some(
                StopTicket {
                    generation: r.generation,
                    had_speech,
                    signal_stop: r.stop_pending,
                    stop_loopback: r.loopback_active,
                    stop_mic_forwarding: r.mic_open,
                },
            ),
        )
    }
}

/// Starting a recording.  The provider's credentials are checked first,
/// before anything changes: when they are missing, the error is returned
/// and the recorder is left as it was.  Otherwise a new session is claimed
/// as [`Recorder::begin_start`] does, capturing system audio when the
/// settings' audio source is `"system"` (`Ok(None)` while a session
/// records).
pub fn start_recording(r: &mut Recorder, settings: &AppSettings) -> (t: Result<Option<StartTicket>, String>)
    requires
        credentials_spec(*settings) is Ok && !old(r).is_recording ==> old(r).generation < u64::MAX,
    ensures
        match t {
            Err(e) => credentials_spec(*settings) == Err::<(), Seq<char>>(e@) && *final(r) == *old(r),
            Ok(ticket) => credentials_spec(*settings) == Ok::<(), Seq<char>>(())
                && (*final(r), ticket) == start_spec(*old(r), settings.audio_source@ == "system"@),
        },
{
    match validate_provider_credentials(settings) {
        Err(e) => Err(e),
        Ok(()) => {
            let use_loopback = str_eq(settings.audio_source.as_str(), "system");
            proof {
                reveal_strlit("system");
            }
            Ok(r.begin_start(use_loopback))
        },
    }
}

/// A task ending: capture stops only if the task's session is the current,
/// still recording one; the microphone closes when nothing records and it
/// is not kept open.
pub open spec fn task_end_spec(r: Recorder, task_generation: u64, mic_always_on: bool) -> (Recorder, TaskEnd) {
    let current = r.is_recording && r.generation == task_generation;
    let recording = r.is_recording && !current;
    let release = !mic_always_on && !recording && r.mic_open;
    (
        Recorder {
            is_recording: recording,
            loopback_active: if current { false } else { r.loopback_active },
            mic_open: r.mic_open && !release,
            ..r
        },
        TaskEnd {
            stop_capture: current,
            stop_loopback: current && r.loopback_active,
            stop_mic_forwarding: current && r.mic_open,
            release_mic: release,
        },
    )
}

impl Recorder {
    /// Nothing recording, generation 0, no devices.
    pub fn new() -> (r: Self)
        ensures
            r == (Recorder {
                is_recording: false,
                generation: 0,
                mic_open: false,
                loopback_active: false,
                stop_pending: false,
            }),
    {
        Recorder {
            is_recording: false,
            generation: 0,
            mic_open: false,
            loopback_active: false,
            stop_pending: false,
        }
    }

    /// Claims a new session.  While a session records this does nothing
    /// and returns `None`.
    pub fn begin_start(&mut self, use_loopback: bool) -> (t: Option<StartTicket>)
        requires
            !old(self).is_recording ==> old(self).generation < u64::MAX,
        ensures
            (*final(self), t) == start_spec(*old(self), use_loopback),
    {
        if self.is_recording {
            return None;
        }
        self.is_recording = true;
        self.generation = self.generation + 1;
        Some(StartTicket { generation: self.generation, needs_mic: !use_loopback && !self.mic_open })
    }

    /// The microphone stream opened.
    pub fn mic_opened(&mut self)
        ensures
            *final(self) == (Recorder { mic_open: true, ..*old(self) }),
    {
        self.mic_open = true;
    }

    /// Opening capture failed: the claimed session does not record.
    pub fn start_failed(&mut self)
        ensures
            *final(self) == (Recorder { is_recording: false, ..*old(self) }),
    {
        self.is_recording = false;
    }

    /// Capture runs and the session's stop signal is held.
    pub fn capture_started(&mut self, use_loopback: bool)
        ensures
            *final(self) == (Recorder {
                stop_pending: true,
                loopback_active: use_loopback,
                ..*old(self)
            }),
    {
        self.stop_pending = true;
        self.loopback_active = use_loopback;
    }

    /// Stops the current session.  When nothing records this does nothing
    /// and returns `None`.
    pub fn stop(&mut self, had_speech: bool) -> (t: Option<StopTicket>)
        ensures
            (*final(self), t) == stop_spec(*old(self), had_speech),
    {
        if !self.is_recording {
            return None;
        }
        let t = StopTicket {
            generation: self.generation,
            had_speech,
            signal_stop: self.stop_pending,
            stop_loopback: self.loopback_active,
            stop_mic_forwarding: self.mic_open,
        };
        self.stop_pending = false;
        self.loopback_active = false;
        self.is_recording = false;
        Some(t)
    }

    /// A recognition task of generation `task_generation` ended.
    pub fn session_task_ended(&mut self, task_generation: u64, mic_always_on: bool) -> (e: TaskEnd)
        ensures
            (*final(self), e) == task_end_spec(*old(self), task_generation, mic_always_on),
    {
        let current = self.is_recording && self.generation == task_generation;
        let stop_loopback = current && self.loopback_active;
        let stop_mic_forwarding = current && self.mic_open;
        if current {
            self.is_recording = false;
            self.loopback_active = false;
        }
        let release_mic = !mic_always_on && !self.is_recording && self.mic_open;
        if release_mic {
            self.mic_open = false;
        }
        TaskEnd { stop_capture: current, stop_loopback, stop_mic_forwarding, release_mic }
    }
}

/// What an abort request (Escape) does.
pub struct AbortPlan {
    /// The session that is aborted, or the latest one when none records.
    pub generation: u64,
    /// Set the current session's abort flag (only while recording).
    pub mark_aborted: bool,
    /// Stopping the session, when one was recording.
    pub stop: Option<StopTicket>,
    /// The `session-force-abort` payload, sent in every case.
    pub payload: SessionAbortPayload,
}

/// Aborts the current session: while recording, its abort flag is set
/// before it is stopped; the frontend is told in every case.
pub fn abort_session(r: &mut Recorder, had_speech: bool) -> (p: AbortPlan)
    ensures
        p.generation == old(r).generation,
        p.mark_aborted == old(r).is_recording,
        (*final(r), p.stop) == stop_spec(*old(r), had_speech),
        p.payload.generation == old(r).generation,
        p.payload.reason@ == "escape"@,
{
    let generation = r.generation;
    let mark_aborted = r.is_recording;
    let stop = r.stop(had_speech);
    AbortPlan {
        generation,
        mark_aborted,
        stop,
        payload: SessionAbortPayload { generation, reason: owned("escape") },
    }
}

// ── Laws ──

/// Stopping twice is stopping once: the second stop finds nothing to do.
pub proof fn lemma_stop_is_idempotent(r: Recorder, a: bool, b: bool)
    ensures
        stop_spec(stop_spec(r, a).0, b).1 is None,
        stop_spec(stop_spec(r, a).0, b).0 == stop_spec(r, a).0,
{
}

/// The task of an earlier session ending never stops or claims the
/// session recording now, nor releases its microphone.
pub proof fn lemma_stale_task_keeps_current_session(r: Recorder, task_generation: u64, mic_always_on: bool)
    requires
        r.is_recording,
        task_generation != r.generation,
    ensures
        task_end_spec(r, task_generation, mic_always_on).0 == r,
        !task_end_spec(r, task_generation, mic_always_on).1.stop_capture,
        !task_end_spec(r, task_generation, mic_always_on).1.release_mic,
{
}

/// A started session gets a generation above every earlier one, and
/// stopping it reports that generation.
pub proof fn lemma_start_stop_generation(r: Recorder, use_loopback: bool, had_speech: bool)
    requires
        !r.is_recording,
        r.generation < u64::MAX,
    ensures
        (start_spec(r, use_loopback).1 matches Some(t) && t.generation == r.generation + 1),
        (stop_spec(start_spec(r, use_loopback).0, had_speech).1 matches Some(s) && s.generation
            == r.generation + 1),
{
}

/// A second start while the first session records changes nothing.
pub proof fn lemma_start_while_recording_is_ignored(r: Recorder, a: bool, b: bool)
    requires
        !r.is_recording,
        r.generation < u64::MAX,
    ensures
        start_spec(start_spec(r, a).0, b) == (start_spec(r, a).0, None::<StartTicket>),
{
}

// ── Providers and messages ──

/// The recognition provider a session uses, with its settings.
#[derive(Debug, Clone)]
pub enum ProviderChoice {
    DashScope(DashScopeProvider),
    Qwen(QwenProvider),
    Doubao(DoubaoProvider),
}

/// The provider named by the settings (`"dashscope"`, `"qwen"`, else
/// Doubao), with its credentials and options copied from them.
pub fn choose_provider(settings: &AppSettings) -> (c: ProviderChoice)
    ensures
        settings.provider@ == "dashscope"@ ==> (c matches ProviderChoice::DashScope(p)
            && p.settings.api_key == settings.dashscope.api_key
            && p.settings.model == settings.dashscope.model
            && p.settings.region == settings.dashscope.region),
        settings.provider@ == "qwen"@ ==> (c matches ProviderChoice::Qwen(p)
            && p.settings.api_key == settings.qwen.api_key
            && p.settings.model == settings.qwen.model
            && p.settings.region == settings.qwen.region
            && p.settings.language == settings.qwen.language),
        settings.provider@ != "dashscope"@ && settings.provider@ != "qwen"@ ==> (c matches ProviderChoice::Doubao(p)
            && p.settings.app_id == settings.doubao.app_id
            && p.settings.access_token == settings.doubao.access_token
            && p.settings.resource_id == settings.doubao.resource_id
            && p.settings.mode == (if settings.doubao.asr_mode@ == "nostream"@ {
                DoubaoMode::NoStream
            } else {
                DoubaoMode::BiStream
            })),
{
    proof {
        reveal_strlit("qwen");
        reveal_strlit("dashscope");
        assert("qwen"@.len() == 4);
        assert("dashscope"@.len() == 9);
        assert("qwen"@ != "dashscope"@);
    }
    let p = settings.provider.as_str();
    if str_eq(p, "dashscope") {
        ProviderChoice::DashScope(
            DashScopeProvider {
                settings: DashScopeSettings {
                    api_key: settings.dashscope.api_key.clone(),
                    model: settings.dashscope.model.clone(),
                    region: settings.dashscope.region.clone(),
                },
            },
        )
    } else if str_eq(p, "qwen") {
        ProviderChoice::Qwen(
            QwenProvider {
                settings: QwenSettings {
                    api_key: settings.qwen.api_key.clone(),
                    model: settings.qwen.model.clone(),
                    region: settings.qwen.region.clone(),
                    language: settings.qwen.language.clone(),
                },
            },
        )
    } else {
        ProviderChoice::Doubao(
            DoubaoProvider {
                settings: DoubaoSettings {
                    app_id: settings.doubao.app_id.clone(),
                    access_token: settings.doubao.access_token.clone(),
                    resource_id: settings.doubao.resource_id.clone(),
                    mode: doubao_mode_from_setting(settings.doubao.asr_mode.as_str()),
                },
            },
        )
    }
}

/// The log line for a stopped session.
pub open spec fn stop_message_seq(had_speech: bool, generation: u64) -> Seq<char> {
    if had_speech {
        "已结束录音，等待识别结果 [会话 "@ + dec_seq(generation as nat) + "]"@
    } else {
        "已结束录音，未检测到有效语音 [会话 "@ + dec_seq(generation as nat) + "]"@
    }
}

pub fn stop_message(had_speech: bool, generation: u64) -> (m: String)
    ensures
        m@ == stop_message_seq(had_speech, generation),
{
    let mut m = if had_speech {
        owned("已结束录音，等待识别结果 [会话 ")
    } else {
        owned("已结束录音，未检测到有效语音 [会话 ")
    };
    let g = u64_to_dec(generation);
    push_str(&mut m, g.as_str());
    push_str(&mut m, "]");
    m
}

/// The log line for a started session: audio source, provider, input mode
/// and generation.
pub fn start_message(settings: &AppSettings, generation: u64) -> (m: String)
    ensures
        m@ == "已开始录音 ["@ + (if settings.audio_source@ == "system"@ {
            "系统声音"@
        } else {
            "麦克风"@
        }) + " / "@ + (if settings.provider@ == "dashscope"@ {
            "百炼"@
        } else if settings.provider@ == "qwen"@ {
            "千问"@
        } else {
            "豆包"@
        }) + " / "@ + (if settings.input_mode@ == "hold"@ {
            "按住说话"@
        } else {
            "按键切换"@
        }) + "，会话 "@ + dec_seq(generation as nat) + "]"@,
{
    let mut m = owned("已开始录音 [");
    push_str(&mut m, audio_source_label(settings.audio_source.as_str()));
    push_str(&mut m, " / ");
    push_str(&mut m, provider_label(settings.provider.as_str()));
    push_str(&mut m, " / ");
    push_str(&mut m, input_mode_label(settings.input_mode.as_str()));
    push_str(&mut m, "，会话 ");
    let g = u64_to_dec(generation);
    push_str(&mut m, g.as_str());
    push_str(&mut m, "]");
    m
}

/// The log line for an abort request.
pub fn abort_message(recording: bool, generation: u64) -> (m: String)
    ensures
        m@ == (if recording {
            "收到 ESC 中止请求 [录音中，会话 "@
        } else {
            "收到 ESC 中止请求 [非录音中，会话 "@
        }) + dec_seq(generation as nat) + "]"@,
{
    let mut m = if recording {
        owned("收到 ESC 中止请求 [录音中，会话 ")
    } else {
        owned("收到 ESC 中止请求 [非录音中，会话 ")
    };
    let g = u64_to_dec(generation);
    push_str(&mut m, g.as_str());
    push_str(&mut m, "]");
    m
}

} // verus!
