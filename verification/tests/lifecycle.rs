use speakin::control::{
    ai_log_message, app_log_message, apply_tray_action, log_timestamp, settings_change,
    tray_action, tray_menu, DispatchAction, HotkeyDispatcher, ItemKind, MicChange, TrayAction,
    TrayEntry,
};
use speakin::ai::prompts::PromptTemplate;
use speakin::ai::providers::{AiProvider, ApiProtocol};
use speakin::asr::doubao::DoubaoMode;
use speakin::hotkey::HotkeyEvent;
use speakin::recorder::{
    abort_message, abort_session, choose_provider, start_message, start_recording, stop_message,
    ProviderChoice, Recorder,
};
use speakin::settings::AppSettings;

#[test]
fn start_stop_and_generations() {
    let mut r = Recorder::new();
    let t = r.begin_start(false).expect("start");
    assert_eq!(t.generation, 1);
    assert!(t.needs_mic);
    assert!(r.begin_start(false).is_none());
    r.mic_opened();
    r.capture_started(false);
    let s = r.stop(true).expect("stop");
    assert_eq!(s.generation, 1);
    assert!(s.signal_stop);
    assert!(s.stop_mic_forwarding);
    assert!(!s.stop_loopback);
    assert!(r.stop(false).is_none());
    let t2 = r.begin_start(true).unwrap();
    assert_eq!(t2.generation, 2);
    assert!(!t2.needs_mic);
}

#[test]
fn stale_task_end_keeps_new_session() {
    let mut r = Recorder::new();
    r.begin_start(false);
    r.mic_opened();
    r.capture_started(false);
    r.stop(false);
    r.begin_start(false);
    r.capture_started(false);
    // The first session's task ends while the second records.
    let e = r.session_task_ended(1, false);
    assert!(!e.stop_capture);
    assert!(!e.release_mic);
    assert!(r.is_recording);
    // The current session's task ends on its own: capture stops, the mic closes.
    let e = r.session_task_ended(2, false);
    assert!(e.stop_capture);
    assert!(e.stop_mic_forwarding);
    assert!(e.release_mic);
    assert!(!r.is_recording);
    assert!(!r.mic_open);
}

#[test]
fn abort_marks_only_a_recording_session() {
    let mut r = Recorder::new();
    let p = abort_session(&mut r, false);
    assert!(!p.mark_aborted);
    assert!(p.stop.is_none());
    assert_eq!(p.payload.reason, "escape");
    r.begin_start(true);
    r.capture_started(true);
    let p = abort_session(&mut r, true);
    assert!(p.mark_aborted);
    assert_eq!(p.generation, 1);
    let s = p.stop.unwrap();
    assert!(s.stop_loopback);
    assert!(s.had_speech);
}

#[test]
fn lifecycle_messages() {
    assert_eq!(stop_message(true, 4), "已结束录音，等待识别结果 [会话 4]");
    assert_eq!(stop_message(false, 4), "已结束录音，未检测到有效语音 [会话 4]");
    assert_eq!(abort_message(false, 9), "收到 ESC 中止请求 [非录音中，会话 9]");
    let mut s = AppSettings::default();
    s.provider = "qwen".to_string();
    s.input_mode = "hold".to_string();
    assert_eq!(start_message(&s, 12), "已开始录音 [麦克风 / 千问 / 按住说话，会话 12]");
}

#[test]
fn provider_choice_follows_settings() {
    let mut s = AppSettings::default();
    s.doubao.asr_mode = "nostream".to_string();
    match choose_provider(&s) {
        ProviderChoice::Doubao(p) => assert_eq!(p.settings.mode, DoubaoMode::NoStream),
        _ => panic!("doubao expected"),
    }
    s.provider = "dashscope".to_string();
    s.dashscope.model = "m".to_string();
    match choose_provider(&s) {
        ProviderChoice::DashScope(p) => assert_eq!(p.settings.model, "m"),
        _ => panic!("dashscope expected"),
    }
}

#[test]
fn hotkey_dispatch_cooldown_and_mistouch() {
    let mut d = HotkeyDispatcher::new();
    assert_eq!(d.on_event(HotkeyEvent::ShortPress, 1000, false), DispatchAction::StartRecording);
    assert_eq!(d.on_event(HotkeyEvent::ShortPress, 1200, true), DispatchAction::Ignore);
    assert_eq!(d.on_event(HotkeyEvent::ShortPress, 1300, true), DispatchAction::StopRecording);

    let mut d = HotkeyDispatcher::new();
    assert_eq!(d.on_event(HotkeyEvent::HoldStart, 5000, false), DispatchAction::StartRecording);
    d.hold_started(5000);
    assert_eq!(d.on_event(HotkeyEvent::HoldEnd, 5100, true), DispatchAction::CancelMistouch);
    assert_eq!(d.on_event(HotkeyEvent::HoldStart, 6000, false), DispatchAction::StartRecording);
    d.hold_started(6000);
    assert_eq!(d.on_event(HotkeyEvent::HoldEnd, 6500, true), DispatchAction::StopRecording);
    assert_eq!(d.on_event(HotkeyEvent::AbortSession, 6600, false), DispatchAction::AbortSession);
}

#[test]
fn settings_change_effects() {
    let old = AppSettings::default();
    let mut new = old.clone();
    new.hotkey = "Ctrl+Alt+R".to_string();
    new.mic_always_on = true;
    new.device_name = "USB Mic".to_string();
    let c = settings_change(&old, &new, true, false);
    assert!(c.stop_recording);
    assert_eq!(c.mic, MicChange::Open(Some("USB Mic".to_string())));
    let c = settings_change(&new, &old, false, true);
    assert!(!c.stop_recording);
    assert_eq!(c.mic, MicChange::Close);
    let mut other = new.clone();
    other.device_name = String::new();
    let c = settings_change(&new, &other, false, true);
    assert_eq!(c.mic, MicChange::Switch(None));
}

fn provider(id: &str, name: &str) -> AiProvider {
    AiProvider {
        id: id.to_string(),
        name: name.to_string(),
        protocol: ApiProtocol::Openai,
        api_endpoint: "https://api.example.com/v1".to_string(),
        model: "m".to_string(),
        stream: true,
        extra_body: "{}".to_string(),
    }
}

fn prompt(id: &str, name: &str) -> PromptTemplate {
    PromptTemplate {
        id: id.to_string(),
        name: name.to_string(),
        category: String::new(),
        system_prompt: "sys".to_string(),
        user_prompt_template: "{{text}}".to_string(),
        is_builtin: false,
    }
}

#[test]
fn tray_menu_reflects_settings() {
    let mut s = AppSettings::default();
    s.ai_optimize.active_provider_id = "p1".to_string();
    s.ai_optimize.active_prompt_id = "b".to_string();
    let providers = vec![provider("p1", "One")];
    let prompts = vec![prompt("a", "A"), prompt("b", "B")];
    let m = tray_menu(&s, &prompts, &providers);
    assert_eq!(m.len(), 13);
    match &m[2] {
        TrayEntry::Item(t) => {
            assert_eq!(t.kind, ItemKind::Check(false));
            assert!(t.enabled);
        }
        _ => panic!("item expected"),
    }
    match &m[3] {
        TrayEntry::Submenu { items, .. } => {
            assert_eq!(items.len(), 2);
            assert_eq!(items[1].id, "tray_prompt_b");
            assert_eq!(items[1].kind, ItemKind::Check(true));
            assert_eq!(items[0].kind, ItemKind::Check(false));
        }
        _ => panic!("submenu expected"),
    }
    let empty = tray_menu(&s, &[], &[]);
    match &empty[4] {
        TrayEntry::Submenu { items, .. } => {
            assert_eq!(items[0].id, "tray_aiprov_empty");
            assert!(!items[0].enabled);
        }
        _ => panic!("submenu expected"),
    }
}

#[test]
fn tray_actions_update_settings() {
    let mut s = AppSettings::default();
    let providers = vec![provider("p1", "One")];
    assert_eq!(tray_action("tray_ai", &s, &providers), TrayAction::AiNeedsProvider);
    let a = tray_action("tray_aiprov_p1", &s, &providers);
    assert_eq!(a, TrayAction::SetAiProvider("p1".to_string()));
    assert!(apply_tray_action(&mut s, a));
    assert_eq!(s.ai_optimize.active_provider_id, "p1");
    assert_eq!(tray_action("tray_ai", &s, &providers), TrayAction::ToggleAi);
    assert!(apply_tray_action(&mut s, TrayAction::ToggleAi));
    assert!(s.ai_optimize.enabled);
    assert_eq!(tray_action("tray_prompt_x1", &s, &providers), TrayAction::SetPrompt("x1".to_string()));
    assert_eq!(tray_action("tray_output_none", &s, &providers), TrayAction::SetOutputMode("none".to_string()));
    assert_eq!(tray_action("unknown", &s, &providers), TrayAction::Nothing);
    assert!(!apply_tray_action(&mut s, TrayAction::Quit));
}

#[test]
fn log_lines() {
    assert_eq!(log_timestamp(2026, 4, 7, 9, 5, 3, 42), "2026-04-07 09:05:03.042");
    assert_eq!(app_log_message("x"), "[APP] x");
    assert_eq!(ai_log_message(false, "x"), None);
    assert_eq!(ai_log_message(true, "x").as_deref(), Some("[AI] x"));
}

#[test]
fn failed_start_leaves_nothing_recording() {
    let mut r = Recorder::new();
    let t = r.begin_start(false).expect("start");
    assert_eq!(t.generation, 1);
    r.start_failed();
    assert!(!r.is_recording);
    assert!(r.stop(false).is_none());
    let again = r.begin_start(false).expect("a new start after a failed one");
    assert_eq!(again.generation, 2);
}

#[test]
fn credentials_are_checked_before_a_session_is_claimed() {
    let mut r = Recorder::new();
    let mut s = AppSettings::default();
    s.provider = "qwen".to_string();
    s.qwen.api_key = String::new();
    let e = start_recording(&mut r, &s).unwrap_err();
    assert_eq!(e, "请先配置千问语音识别的 API Key");
    assert!(!r.is_recording);
    assert_eq!(r.generation, 0);

    s.qwen.api_key = "sk".to_string();
    s.audio_source = "system".to_string();
    let t = start_recording(&mut r, &s).unwrap().expect("claimed");
    assert_eq!(t.generation, 1);
    assert!(!t.needs_mic);
    assert!(r.is_recording);
    assert!(start_recording(&mut r, &s).unwrap().is_none());
}
