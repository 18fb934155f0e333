use speakin::ai::providers::{AiProvider, ApiProtocol};
use speakin::settings::{
    append_startup_warning, count_chinese_chars, input_mode_from_str, normalize_input_mode,
    normalize_settings_for_save, sanitize_loaded_settings, validate_ai_optimize_settings,
    validate_provider_credentials, AppSettings, UsageStats,
};
use speakin::hotkey::InputMode;

fn provider(id: &str) -> AiProvider {
    AiProvider {
        id: id.to_string(),
        name: "n".to_string(),
        protocol: ApiProtocol::Openai,
        api_endpoint: "https://a.b".to_string(),
        model: "m".to_string(),
        stream: true,
        extra_body: "{}".to_string(),
    }
}

#[test]
fn factory_settings_are_kept_as_they_are() {
    let (s, warning, persist) = sanitize_loaded_settings(AppSettings::default(), &[]);
    assert!(warning.is_none());
    assert!(!persist);
    assert_eq!(s.hotkey, "Ctrl+Shift+V");
    assert_eq!(s.provider, "doubao");
}

#[test]
fn loaded_settings_are_sanitized() {
    let mut s = AppSettings::default();
    s.input_mode = "weird".to_string();
    s.hotkey = "Ctrl+C".to_string();
    s.provider = "unknown".to_string();
    s.qwen.region = "mars".to_string();
    s.silence_auto_stop_secs = 90;
    s.vad_sensitivity = 0;
    s.ai_optimize.enabled = true;
    s.ai_optimize.active_provider_id = " gone ".to_string();
    s.ai_optimize.active_prompt_id = " p ".to_string();
    let (s, warning, persist) = sanitize_loaded_settings(s, &[provider("p1")]);
    assert!(persist);
    assert_eq!(s.input_mode, "toggle");
    assert_eq!(s.hotkey, "Ctrl+Shift+V");
    assert_eq!(s.provider, "doubao");
    assert_eq!(s.qwen.region, "beijing");
    assert_eq!(s.silence_auto_stop_secs, 6);
    assert_eq!(s.vad_sensitivity, 7);
    assert_eq!(s.ai_optimize.active_provider_id, "");
    assert_eq!(s.ai_optimize.active_prompt_id, "p");
    assert!(!s.ai_optimize.enabled);
    let w = warning.unwrap();
    assert!(w.starts_with("检测到无效热键配置（"));
    assert!(w.ends_with("），已回退为 Ctrl+Shift+V；AI 优化已关闭：启用前需要先选择 AI 供应商"));
}

#[test]
fn settings_for_save_are_normalized() {
    let mut s = AppSettings::default();
    s.hotkey = " control + shift + v ".to_string();
    s.input_mode = "HOLD".to_string();
    s.ai_optimize.active_provider_id = " p1 ".to_string();
    let (s, h, m) = normalize_settings_for_save(s).unwrap();
    assert_eq!(s.hotkey, "Ctrl+Shift+V");
    assert_eq!(h.normalized(), "Ctrl+Shift+V");
    assert_eq!(s.input_mode, "toggle");
    assert_eq!(m, InputMode::Toggle);
    assert_eq!(s.ai_optimize.active_provider_id, "p1");
    let mut bad = AppSettings::default();
    bad.hotkey = "Ctrl+C".to_string();
    assert!(normalize_settings_for_save(bad).is_err());
}

#[test]
fn credentials_and_ai_selection_checks() {
    let mut s = AppSettings::default();
    assert_eq!(
        validate_provider_credentials(&s),
        Err("请先配置豆包的 App ID 和 Access Token".to_string())
    );
    s.doubao.app_id = "a".to_string();
    s.doubao.access_token = "t".to_string();
    assert!(validate_provider_credentials(&s).is_ok());
    s.provider = "qwen".to_string();
    assert_eq!(validate_provider_credentials(&s), Err("请先配置千问语音识别的 API Key".to_string()));
    s.provider = "x".to_string();
    assert_eq!(validate_provider_credentials(&s), Err("未知供应商: x".to_string()));

    let mut s = AppSettings::default();
    assert!(validate_ai_optimize_settings(&s, &[]).is_ok());
    s.ai_optimize.enabled = true;
    assert!(validate_ai_optimize_settings(&s, &[]).is_err());
    s.ai_optimize.active_provider_id = "p1".to_string();
    assert!(validate_ai_optimize_settings(&s, &[provider("p1")]).is_ok());
}

#[test]
fn small_settings_helpers() {
    assert_eq!(normalize_input_mode("hold"), "hold");
    assert_eq!(normalize_input_mode("Hold"), "toggle");
    assert_eq!(input_mode_from_str("hold"), InputMode::Hold);
    let mut w = None;
    append_startup_warning(&mut w, "一".to_string());
    append_startup_warning(&mut w, "二".to_string());
    assert_eq!(w.as_deref(), Some("一；二"));
    assert_eq!(count_chinese_chars("abc你好，世界"), 4);
    let mut st = UsageStats::default();
    st.record_session(1500, "你好ab");
    st.record_session(500, "x");
    assert_eq!(
        st,
        UsageStats { total_sessions: 2, total_recording_duration_ms: 2000, total_characters: 5, total_chinese_chars: 2 }
    );
}

#[test]
fn repaired_settings_need_no_second_repair() {
    let mut s = AppSettings::default();
    s.input_mode = "weird".to_string();
    s.hotkey = " shift + alt + f7 ".to_string();
    s.provider = "unknown".to_string();
    s.dashscope.region = "mars".to_string();
    s.vad_sensitivity = 12;
    s.ai_optimize.enabled = true;
    s.ai_optimize.active_provider_id = " p1 ".to_string();
    s.ai_optimize.active_prompt_id = " p ".to_string();
    let providers = [provider("p1")];
    let (once, _, persist) = sanitize_loaded_settings(s, &providers);
    assert!(persist);
    assert_eq!(once.hotkey, "Alt+Shift+F7");
    assert!(once.ai_optimize.enabled);
    let (twice, warning, persist) = sanitize_loaded_settings(once.clone(), &providers);
    assert!(warning.is_none());
    assert!(!persist);
    assert_eq!(twice.hotkey, once.hotkey);
    assert_eq!(twice.input_mode, once.input_mode);
    assert_eq!(twice.provider, once.provider);
    assert_eq!(twice.dashscope.region, once.dashscope.region);
    assert_eq!(twice.vad_sensitivity, once.vad_sensitivity);
    assert_eq!(twice.ai_optimize, once.ai_optimize);
}
