use speakin::ai::providers::{clear_provider_key, has_provider_key, load_provider_key, save_provider_key};
use speakin::storage::{uninstall_cleanup, KeyringLog};
use speakin::settings::{AppSettings, TranscriptRecord, UsageStats};
use speakin::storage::{
    append_record, apply_credential, cleanup_records, has_plaintext_credentials,
    settings_from_legacy, should_persist_migrated_stats, stats_from_legacy, strip_credentials,
    uninstall_cleanup_keys, update_optimized_by_id, CredentialError, LegacySettingsFields,
    LegacyStatsFields, EXPIRE_MS, MAX_RECORDS,
};
use speakin::storage::{
    credential_field, credential_write, credential_writes, overlay_from_lookups, CredentialWrite,
    KEYRING_SERVICE,
};

fn record(id: &str, ts: u64, status: &str) -> TranscriptRecord {
    TranscriptRecord {
        id: id.to_string(),
        timestamp: ts,
        original: "o".to_string(),
        final_text: "f".to_string(),
        optimized: None,
        duration_ms: 1,
        status: status.to_string(),
    }
}

#[test]
fn cleanup_drops_expired_and_sorts_newest_first() {
    let now = EXPIRE_MS + 1000;
    let mut rs = vec![record("old", 999, "done"), record("a", 2000, "done"), record("b", 5000, "done"), record("c", 2000, "done")];
    let changed = cleanup_records(&mut rs, now);
    assert!(changed);
    let ids: Vec<&str> = rs.iter().map(|r| r.id.as_str()).collect();
    assert_eq!(ids, vec!["b", "a", "c"]);
}

#[test]
fn cleanup_keeps_at_most_thirty() {
    let mut rs: Vec<TranscriptRecord> = (0..35).map(|i| record(&format!("r{}", i), 100 + i, "done")).collect();
    let changed = cleanup_records(&mut rs, 200);
    assert!(changed);
    assert_eq!(rs.len(), MAX_RECORDS);
    assert_eq!(rs[0].id, "r34");
    assert_eq!(rs[29].id, "r5");
    let mut same = vec![record("x", 10, "done")];
    assert!(!cleanup_records(&mut same, 20));
}

#[test]
fn append_then_update_optimized() {
    let mut rs = Vec::new();
    append_record(&mut rs, record("1-1", 50, "partial"), 60);
    append_record(&mut rs, record("2-2", 70, "done"), 80);
    assert_eq!(rs[0].id, "2-2");
    assert!(update_optimized_by_id(&mut rs, "1-1", "优化".to_string()).is_ok());
    assert_eq!(rs[1].optimized.as_deref(), Some("优化"));
    assert_eq!(rs[1].status, "done");
    assert_eq!(
        update_optimized_by_id(&mut rs, "9-9", "x".to_string()),
        Err("record not found: 9-9".to_string())
    );
}

fn empty_legacy() -> LegacySettingsFields {
    LegacySettingsFields {
        provider: None,
        resource_id: None,
        asr_mode: None,
        hotkey: None,
        input_mode: None,
        device_name: None,
        audio_source: None,
        output_mode: None,
        mic_always_on: None,
        debug_mode: None,
        filler_enabled: None,
        replacement_enabled: None,
        replacement_ignore_case: None,
        theme_color: None,
        recording_follows_theme: None,
        show_overlay: None,
        close_behavior: None,
        onboarding_completed: None,
        copy_to_clipboard: None,
        paste_restore_clipboard: None,
        system_no_auto_stop: None,
        esc_abort_enabled: None,
        silence_auto_stop_secs: None,
        vad_sensitivity: None,
        dashscope_model: None,
        dashscope_region: None,
        qwen_model: None,
        qwen_region: None,
        qwen_language: None,
        ai_optimize_enabled: None,
        ai_optimize_active_provider_id: None,
        ai_optimize_active_prompt_id: None,
    }
}

#[test]
fn legacy_settings_migrate_with_defaults_and_clamps() {
    let mut f = empty_legacy();
    f.provider = Some(String::new());
    f.hotkey = Some("Ctrl+Alt+R".to_string());
    f.device_name = Some(String::new());
    f.silence_auto_stop_secs = Some(600);
    f.vad_sensitivity = Some(0);
    f.filler_enabled = Some(false);
    f.ai_optimize_active_prompt_id = Some("p".to_string());
    let s = settings_from_legacy(&f);
    assert_eq!(s.provider, "doubao");
    assert_eq!(s.hotkey, "Ctrl+Alt+R");
    assert_eq!(s.device_name, "");
    assert_eq!(s.silence_auto_stop_secs, 60);
    assert_eq!(s.vad_sensitivity, 1);
    assert!(!s.filler_enabled);
    assert_eq!(s.ai_optimize.active_prompt_id, "p");
    assert_eq!(s.output_mode, "type");
}

#[test]
fn legacy_stats_migrate() {
    let f = LegacyStatsFields {
        total_sessions: Some(3),
        total_recording_duration_ms: None,
        total_characters: Some(40),
        total_chinese_chars: None,
    };
    let s = stats_from_legacy(&f);
    assert_eq!(s, UsageStats { total_sessions: 3, total_recording_duration_ms: 0, total_characters: 40, total_chinese_chars: 0 });
    assert!(should_persist_migrated_stats(&s));
    assert!(!should_persist_migrated_stats(&UsageStats::default()));
}

#[test]
fn credentials_never_stay_in_settings() {
    let mut s = AppSettings::default();
    assert!(!has_plaintext_credentials(&s));
    s.qwen.api_key = "sk".to_string();
    s.doubao.app_id = "id".to_string();
    assert!(has_plaintext_credentials(&s));
    strip_credentials(&mut s);
    assert!(!has_plaintext_credentials(&s));
    let mut field = "keep".to_string();
    apply_credential(&mut field, Err(CredentialError::NoEntry));
    assert_eq!(field, "keep");
    apply_credential(&mut field, Ok("new".to_string()));
    assert_eq!(field, "new");
}

#[test]
fn uninstall_keys_cover_fixed_and_provider_keys() {
    let keys = uninstall_cleanup_keys(&["a1".to_string(), "b2".to_string()]);
    assert_eq!(
        keys,
        vec!["app_id", "access_token", "dashscope_api_key", "qwen_api_key", "ai_provider_a1", "ai_provider_b2"]
    );
}

#[test]
fn lookups_fill_the_credential_fields_in_key_order() {
    let mut s = AppSettings::default();
    s.doubao.app_id = "old-app".to_string();
    s.doubao.access_token = "old-token".to_string();
    s.qwen.api_key = "old-qwen".to_string();
    let before = s.clone();
    overlay_from_lookups(
        &mut s,
        vec![
            Ok("app-1".to_string()),
            Err(CredentialError::NoEntry),
            Ok("ds-key".to_string()),
            Err(CredentialError::Other("locked".to_string())),
        ],
    );
    assert_eq!(s.doubao.app_id, "app-1");
    assert_eq!(s.doubao.access_token, "old-token");
    assert_eq!(s.dashscope.api_key, "ds-key");
    assert_eq!(s.qwen.api_key, "old-qwen");
    assert_eq!(s.hotkey, before.hotkey);
    assert_eq!(s.provider, before.provider);
}

#[test]
fn empty_value_deletes_other_values_are_stored() {
    assert_eq!(credential_write("app_id", ""), CredentialWrite::Delete("app_id".to_string()));
    assert_eq!(
        credential_write("qwen_api_key", "sk-1"),
        CredentialWrite::Put("qwen_api_key".to_string(), "sk-1".to_string())
    );
}

#[test]
fn settings_credentials_pair_with_their_keys() {
    let mut s = AppSettings::default();
    s.doubao.app_id = "A".to_string();
    s.dashscope.api_key = "D".to_string();
    assert_eq!(credential_field(&s, 0), "A");
    assert_eq!(credential_field(&s, 1), "");
    assert_eq!(credential_field(&s, 2), "D");
    let ws = credential_writes(&s);
    assert_eq!(
        ws,
        vec![
            CredentialWrite::Put("app_id".to_string(), "A".to_string()),
            CredentialWrite::Delete("access_token".to_string()),
            CredentialWrite::Put("dashscope_api_key".to_string(), "D".to_string()),
            CredentialWrite::Delete("qwen_api_key".to_string()),
        ]
    );
    assert_eq!(KEYRING_SERVICE, "com.magiccodelab.speakin");
}

#[test]
fn keyring_requests_complete_without_failing() {
    let mut log = KeyringLog::new();
    // Whatever the platform's store answers, clearing a key that may not
    // exist succeeds and a cleared key reads as absent where the store
    // keeps nothing.
    assert!(clear_provider_key(&mut log, "p-test").is_ok());
    if has_provider_key(&mut log, "p-test") == Ok(false) {
        assert_eq!(load_provider_key(&mut log, "p-test"), None);
    }
    let _ = save_provider_key(&mut log, "p-test", "");
    uninstall_cleanup(&mut log, &["p-test".to_string()]);
    speakin::run_uninstall_cleanup(&mut log, &[]);
}
