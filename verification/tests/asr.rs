use speakin::asr::dashscope::{
    bearer_auth, dashscope_endpoint, dashscope_read, dashscope_run_task, DashScopeReply,
};
use speakin::asr::doubao::{
    doubao_endpoint, doubao_error_detail, doubao_mode_from_setting, doubao_session_config,
    DoubaoMode, DoubaoReader, DoubaoResult, DoubaoUtterance,
};
use speakin::asr::qwen::{encode_model, qwen_audio_message, qwen_read, qwen_url, QwenReply};
use speakin::asr::session::{ReaderEvent, StartProgress, StreamEvent, StreamPolicy, StreamSession};
use speakin::asr::{
    classify_error, observe_speech_start, plan_session_end, SessionOutcome, SpeechStartObservation,
    SpeechWaiter, PRE_SPEECH_BUFFER_MAX,
};
use speakin::audio::{HOTKEY_NOISE_GUARD_MS, SPEECH_START_MIN_HITS};
use std::time::Duration;

fn ms(d: Duration) -> u64 {
    d.as_millis() as u64
}

#[test]
fn early_spikes_inside_guard_do_not_accumulate_hits() {
    let mut hits = 0;
    let elapsed = Duration::from_millis(HOTKEY_NOISE_GUARD_MS.saturating_sub(1));

    assert_eq!(
        observe_speech_start(&mut hits, true, ms(elapsed)),
        SpeechStartObservation::Guarded
    );
    assert_eq!(hits, 0);
}

#[test]
fn requires_consecutive_hits_after_guard_to_confirm_speech() {
    let mut hits = 0;
    let elapsed = Duration::from_millis(HOTKEY_NOISE_GUARD_MS + 1);

    for _ in 0..(SPEECH_START_MIN_HITS - 1) {
        assert_eq!(
            observe_speech_start(&mut hits, true, ms(elapsed)),
            SpeechStartObservation::Pending
        );
    }

    assert_eq!(
        observe_speech_start(&mut hits, true, ms(elapsed)),
        SpeechStartObservation::Confirmed
    );
}

#[test]
fn silence_resets_consecutive_hits() {
    let mut hits = 0;
    let elapsed = Duration::from_millis(HOTKEY_NOISE_GUARD_MS + 1);

    assert_eq!(
        observe_speech_start(&mut hits, true, ms(elapsed)),
        SpeechStartObservation::Pending
    );
    assert_eq!(
        observe_speech_start(&mut hits, true, ms(elapsed)),
        SpeechStartObservation::Pending
    );
    assert_eq!(
        observe_speech_start(&mut hits, false, ms(elapsed)),
        SpeechStartObservation::Pending
    );
    assert_eq!(hits, 0);
    assert_eq!(
        observe_speech_start(&mut hits, true, ms(elapsed)),
        SpeechStartObservation::Pending
    );
}

#[test]
fn guard_boundary_counts_as_speech() {
    let mut hits = 2;
    assert_eq!(
        observe_speech_start(&mut hits, true, HOTKEY_NOISE_GUARD_MS),
        SpeechStartObservation::Confirmed
    );
    assert_eq!(hits, 3);
}

#[test]
fn classify_error_maps_known_failures() {
    assert_eq!(classify_error("HTTP 401 Unauthorized"), "语音服务鉴权失败");
    assert_eq!(classify_error("UNAUTHORIZED"), "语音服务鉴权失败");
    assert_eq!(classify_error("ASR 错误 45000081: Timeout"), "语音服务响应超时");
    assert_eq!(classify_error("等待 task-started 超时"), "语音服务响应超时");
    assert_eq!(classify_error("45000151"), "音频格式不正确");
    assert_eq!(classify_error("WebSocket 连接失败: refused"), "语音服务连接失败，检查网络后重试");
    assert_eq!(classify_error("IO error: broken pipe"), "语音服务连接失败，检查网络后重试");
    assert_eq!(classify_error("something else"), "语音识别出错");
}

#[test]
fn outcome_status_priority() {
    let mut o = SessionOutcome::new();
    assert_eq!(o.status(), "no_speech");
    o.finals.push("你好".to_string());
    assert_eq!(o.status(), "ok");
    o.error = Some(("r".to_string(), "d".to_string()));
    assert_eq!(o.status(), "error");
    o.aborted = true;
    assert_eq!(o.status(), "aborted");
}

#[test]
fn session_end_joins_finals_and_records_them() {
    let mut o = SessionOutcome::new();
    o.finals.push("第一句".to_string());
    o.finals.push("第二句".to_string());
    o.had_speech = true;
    o.duration_ms = 4200;
    let plan = plan_session_end(o, 7, 1700000000123);
    assert_eq!(plan.payload.final_text, "第一句\n第二句");
    assert_eq!(plan.payload.status, "ok");
    assert_eq!(plan.payload.generation, 7);
    assert_eq!(plan.payload.duration_ms, 4200);
    assert!(plan.payload.error_reason.is_none());
    let rec = plan.record.expect("record");
    assert_eq!(rec.id, "1700000000123-7");
    assert_eq!(rec.status, "done");
    assert_eq!(rec.original, "第一句\n第二句");
    assert_eq!(rec.timestamp, 1700000000123);
}

#[test]
fn silent_failure_is_reported_as_error() {
    let mut o = SessionOutcome::new();
    o.had_speech = true;
    let plan = plan_session_end(o, 3, 10);
    assert_eq!(plan.payload.status, "error");
    assert_eq!(plan.payload.error_reason.as_deref(), Some("未收到识别结果"));
    assert_eq!(
        plan.payload.error_detail.as_deref(),
        Some("had_speech=true but finals empty at session exit")
    );
    assert!(plan.record.is_none());
}

#[test]
fn no_speech_and_aborted_sessions() {
    let plan = plan_session_end(SessionOutcome::new(), 1, 10);
    assert_eq!(plan.payload.status, "no_speech");
    assert!(plan.record.is_none());

    let mut o = SessionOutcome::new();
    o.aborted = true;
    o.had_speech = true;
    o.finals.push("半句".to_string());
    let plan = plan_session_end(o, 2, 10);
    assert_eq!(plan.payload.status, "aborted");
    assert_eq!(plan.record.unwrap().status, "aborted");
}

#[test]
fn aborted_session_does_not_announce_its_error() {
    let mut o = SessionOutcome::new();
    o.aborted = true;
    o.error = Some(("网络错误".to_string(), "socket closed".to_string()));
    let plan = plan_session_end(o, 4, 10);
    assert_eq!(plan.payload.status, "aborted");
    assert!(plan.payload.error_reason.is_none());
    assert!(plan.payload.error_detail.is_none());

    let mut o = SessionOutcome::new();
    o.error = Some(("网络错误".to_string(), "socket closed".to_string()));
    let plan = plan_session_end(o, 5, 10);
    assert_eq!(plan.payload.status, "error");
    assert_eq!(plan.payload.error_reason.as_deref(), Some("网络错误"));
    assert_eq!(plan.payload.error_detail.as_deref(), Some("socket closed"));
}

#[test]
fn whitespace_only_text_is_not_recorded() {
    let mut o = SessionOutcome::new();
    o.finals.push("  ".to_string());
    let plan = plan_session_end(o, 1, 5);
    assert_eq!(plan.payload.final_text, "  ");
    assert!(plan.record.is_none());
}

#[test]
fn speech_waiter_bounds_its_look_back() {
    let mut w = SpeechWaiter::new();
    let frame = vec![1u8; 40000];
    assert_eq!(w.on_frame(&frame, false, 100), SpeechStartObservation::Pending);
    assert_eq!(w.pre_buffer.len(), 40000);
    assert_eq!(w.on_frame(&frame, false, 120), SpeechStartObservation::Pending);
    assert_eq!(w.pre_buffer.len(), PRE_SPEECH_BUFFER_MAX);
}

#[test]
fn stream_session_chunks_audio_in_order() {
    let policy = StreamPolicy { stop_on_done: true, send_failure_fatal: true };
    let pre: Vec<u8> = (0..10u8).collect();
    let mut s = StreamSession::new(pre, 4, policy);
    assert_eq!(s.next_chunk(), Some(vec![0, 1, 2, 3]));
    assert_eq!(s.next_chunk(), Some(vec![4, 5, 6, 7]));
    assert_eq!(s.next_chunk(), None);
    assert!(s.on_event(StreamEvent::Audio(vec![10, 11])));
    assert_eq!(s.next_chunk(), Some(vec![8, 9, 10, 11]));
    assert!(s.on_event(StreamEvent::Reader(ReaderEvent::Final("甲".to_string()))));
    assert!(!s.on_event(StreamEvent::Stop));
    assert!(s.needs_finish());
    assert!(!s.on_final_wait_event(ReaderEvent::Done));
    let o = s.finish(true, false, 900);
    assert_eq!(o.finals, vec!["甲".to_string()]);
    assert!(o.error.is_none());
}

#[test]
fn stream_session_start_and_failures() {
    let policy = StreamPolicy { stop_on_done: true, send_failure_fatal: true };
    let mut s = StreamSession::new(Vec::new(), 4, policy);
    assert_eq!(
        s.on_start_event(ReaderEvent::Done, "task-started"),
        StartProgress::Failed
    );
    assert_eq!(s.error.as_deref(), Some("reader ended before task-started"));

    let mut s = StreamSession::new(Vec::new(), 4, policy);
    s.start_timed_out("session.updated");
    let o = s.finish(true, false, 1);
    assert_eq!(
        o.error,
        Some(("语音服务响应超时".to_string(), "等待 session.updated 超时".to_string()))
    );

    let mut s = StreamSession::new(Vec::new(), 4, policy);
    assert!(!s.audio_send_failed());
    assert_eq!(s.error.as_deref(), Some("音频发送失败"));
    assert!(!s.needs_finish());

    let lenient = StreamPolicy { stop_on_done: false, send_failure_fatal: false };
    let mut s = StreamSession::new(Vec::new(), 4, lenient);
    assert!(s.audio_send_failed());
    assert!(s.error.is_none());
    assert!(s.on_event(StreamEvent::Reader(ReaderEvent::Done)));
    assert!(s.done_received);
    assert!(!s.needs_finish());
}

fn utt(text: &str, definite: bool) -> DoubaoUtterance {
    DoubaoUtterance { text: text.to_string(), definite }
}

#[test]
fn doubao_reader_commits_each_definite_utterance_once() {
    let mut r = DoubaoReader::new();
    let u = r.on_result(Some(DoubaoResult {
        text: None,
        utterances: Some(vec![utt("你好", true), utt("世", false)]),
    }));
    assert_eq!(u.final_text.as_deref(), Some("你好"));
    assert_eq!(u.interim.as_deref(), Some("世"));
    let u = r.on_result(Some(DoubaoResult {
        text: None,
        utterances: Some(vec![utt("你好", true), utt("世界", true), utt("再", false)]),
    }));
    assert_eq!(u.final_text.as_deref(), Some("世界"));
    assert_eq!(u.interim.as_deref(), Some("再"));
    let u = r.on_result(Some(DoubaoResult {
        text: None,
        utterances: Some(vec![utt("你好", true), utt("世界", true)]),
    }));
    assert!(u.final_text.is_none());
    assert!(u.interim.is_none());
    assert_eq!(r.committed_count, 2);
    let u = r.on_result(Some(DoubaoResult { text: Some("整段".to_string()), utterances: None }));
    assert_eq!(u.interim.as_deref(), Some("整段"));
}

#[test]
fn doubao_configuration_by_mode() {
    assert_eq!(doubao_mode_from_setting("nostream"), DoubaoMode::NoStream);
    assert_eq!(doubao_mode_from_setting("bistream"), DoubaoMode::BiStream);
    assert_eq!(
        doubao_endpoint(&DoubaoMode::NoStream),
        "wss://openspeech.bytedance.com/api/v3/sauc/bigmodel_nostream"
    );
    let c = doubao_session_config(&DoubaoMode::BiStream);
    assert_eq!(c.enable_nonstream, Some(true));
    assert_eq!(c.end_window_size, Some(5000));
    let c = doubao_session_config(&DoubaoMode::NoStream);
    assert_eq!(c.enable_nonstream, None);
    assert_eq!(c.uid, "speakin");
    assert_eq!(doubao_error_detail(45000081, "timeout"), "ASR 错误 45000081: timeout");
}

fn ds_reply(event: &str, text: &str, sentence_end: bool) -> DashScopeReply {
    DashScopeReply {
        event: event.to_string(),
        heartbeat: false,
        text: text.to_string(),
        sentence_end,
        status_code: 0,
        status_message: None,
    }
}

#[test]
fn dashscope_messages_and_replies() {
    assert_eq!(
        dashscope_endpoint("singapore"),
        "wss://dashscope-intl.aliyuncs.com/api-ws/v1/inference"
    );
    assert_eq!(dashscope_endpoint("beijing"), "wss://dashscope.aliyuncs.com/api-ws/v1/inference");
    assert_eq!(bearer_auth("sk-1"), "Bearer sk-1");
    let t = dashscope_run_task("id-1", "paraformer-realtime-v2");
    assert_eq!(t.header.action, "run-task");
    assert_eq!(t.model, "paraformer-realtime-v2");

    let s = dashscope_read(&ds_reply("result-generated", "你好", true));
    assert_eq!(s.update, Some(("你好".to_string(), true)));
    assert!(matches!(s.event, Some(ReaderEvent::Final(ref t)) if t == "你好"));
    let s = dashscope_read(&ds_reply("result-generated", "你", false));
    assert!(s.event.is_none());
    let mut failed = ds_reply("task-failed", "", false);
    failed.status_code = -3;
    let s = dashscope_read(&failed);
    assert!(s.stop_reading);
    assert!(matches!(s.event, Some(ReaderEvent::Error(ref d)) if d == "DashScope ASR 错误 -3: 未知错误"));
    let s = dashscope_read(&ds_reply("task-finished", "", false));
    assert!(matches!(s.event, Some(ReaderEvent::Done)));
}

#[test]
fn qwen_url_and_replies() {
    assert_eq!(encode_model("qwen3-asr-flash_v1.0"), "qwen3-asr-flash_v1.0");
    assert_eq!(encode_model("a b/é"), "a%20b%2F%C3%A9");
    assert_eq!(
        qwen_url("singapore", "m x"),
        "wss://dashscope-intl.aliyuncs.com/api-ws/v1/realtime?model=m%20x"
    );
    let m = qwen_audio_message(4, &[0, 1, 2, 3]);
    assert_eq!(m.event_id, "evt_audio_4");
    assert_eq!(m.audio, "AAECAw==");

    let reply = QwenReply {
        kind: "conversation.item.input_audio_transcription.text".to_string(),
        text: Some("你好".to_string()),
        stash: Some("世".to_string()),
        transcript: None,
        error_message: None,
    };
    let s = qwen_read(&reply);
    assert_eq!(s.update, Some(("你好世".to_string(), false)));
    let reply = QwenReply {
        kind: "conversation.item.input_audio_transcription.failed".to_string(),
        text: None,
        stash: None,
        transcript: None,
        error_message: None,
    };
    let s = qwen_read(&reply);
    assert!(!s.stop_reading);
    assert!(matches!(s.event, Some(ReaderEvent::Error(ref d)) if d == "Qwen ASR 转写失败: 转写失败"));
}

#[test]
fn streamed_audio_arrives_complete_and_in_order() {
    let policy = StreamPolicy { stop_on_done: false, send_failure_fatal: false };
    let mut s = StreamSession::new(vec![1, 2, 3, 4, 5], 4, policy);
    let mut sent: Vec<u8> = Vec::new();
    while let Some(chunk) = s.next_chunk() {
        assert_eq!(chunk.len(), 4);
        sent.extend_from_slice(&chunk);
    }
    for frame in [vec![6, 7], vec![8, 9, 10, 11, 12, 13], vec![14]] {
        assert!(s.on_event(StreamEvent::Audio(frame)));
        while let Some(chunk) = s.next_chunk() {
            assert_eq!(chunk.len(), 4);
            sent.extend_from_slice(&chunk);
        }
    }
    assert!(!s.on_event(StreamEvent::Stop));
    assert!(s.needs_finish());
    sent.extend_from_slice(&s.take_remaining());
    assert_eq!(sent, (1..=14).collect::<Vec<u8>>());
}

#[test]
fn failed_look_back_send_follows_the_policy() {
    let strict = StreamPolicy { stop_on_done: true, send_failure_fatal: true };
    let mut s = StreamSession::new(vec![0u8; 8], 4, strict);
    assert!(!s.pre_buffer_send_failed("closed"));
    assert_eq!(s.error.as_deref(), Some("发送预缓冲音频失败: closed"));

    let lenient = StreamPolicy { stop_on_done: false, send_failure_fatal: false };
    let mut s = StreamSession::new(vec![0u8; 8], 4, lenient);
    assert!(s.pre_buffer_send_failed("closed"));
    assert!(s.error.is_none());
    assert_eq!(s.buffer.len(), 8);
}
