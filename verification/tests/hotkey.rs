use speakin::hotkey::{
    apply_config_to_state, handle_key_event, key_hash, parse_key_spec, process_escape_abort_event,
    process_key_event, update_config, validate_hotkey, vk_to_key, EscapeAbortState, HotkeyEvent,
    HotkeyRuntime, HotkeyState, InputMode, Key, ProcessResult, ValidatedHotkey, MOD_ALT, MOD_CTRL,
};

fn reset_escape_abort_state(enabled: bool, active: bool) -> EscapeAbortState {
    EscapeAbortState { enabled, active, key_down: false }
}

fn new_state(combo: &ValidatedHotkey, input_mode: InputMode) -> HotkeyState {
    HotkeyState { is_key_down: false, input_mode, combo: combo.combo(), active_mods: 0 }
}

#[test]
fn validates_and_normalizes_hotkeys() {
    let hotkey = validate_hotkey(" control + shift + v ").unwrap();
    assert_eq!(hotkey.normalized(), "Ctrl+Shift+V");
}

#[test]
fn rejects_missing_trigger_key() {
    let err = validate_hotkey("Ctrl+Shift").unwrap_err();
    assert!(err.contains("触发键"));
}

#[test]
fn rejects_multiple_trigger_keys() {
    let err = validate_hotkey("Ctrl+Shift+V+R").unwrap_err();
    assert!(err.contains("一个触发键"));
}

#[test]
fn rejects_reserved_combos() {
    let err = validate_hotkey("Ctrl+C").unwrap_err();
    assert!(err.contains("冲突"));
}

#[test]
fn rejects_single_printable_keys_without_modifiers() {
    let err = validate_hotkey("V").unwrap_err();
    assert!(err.contains("至少添加"));

    let err = validate_hotkey("Space").unwrap_err();
    assert!(err.contains("至少添加"));
}

#[test]
fn allows_safe_single_keys_without_modifiers() {
    assert_eq!(validate_hotkey("F2").unwrap().normalized(), "F2");
    assert_eq!(validate_hotkey("Caps").unwrap().normalized(), "CapsLock");
    assert_eq!(validate_hotkey("Escape").unwrap().normalized(), "Escape");
}

#[test]
fn update_config_resets_runtime_state() {
    let initial = validate_hotkey("F2").unwrap();
    let replacement = validate_hotkey("Ctrl+Alt+R").unwrap();
    let mut state = new_state(&initial, InputMode::Toggle);
    state.is_key_down = true;
    state.active_mods = MOD_CTRL | MOD_ALT;

    apply_config_to_state(&mut state, &replacement, InputMode::Hold);

    assert!(!state.is_key_down);
    assert_eq!(state.active_mods, 0);
    assert_eq!(state.input_mode, InputMode::Hold);
    assert_eq!(state.combo, replacement.combo());
}

#[test]
fn switching_hotkeys_discards_old_release_state() {
    let old_hotkey = validate_hotkey("F2").unwrap();
    let new_hotkey = validate_hotkey("F3").unwrap();
    let mut state = new_state(&old_hotkey, InputMode::Hold);

    let press_old = process_key_event(&mut state, Key::F2, true);
    assert_eq!(
        press_old,
        ProcessResult { consumed: true, emitted: Some(HotkeyEvent::HoldStart) }
    );

    apply_config_to_state(&mut state, &new_hotkey, InputMode::Hold);

    let release_old = process_key_event(&mut state, Key::F2, false);
    assert_eq!(release_old, ProcessResult { consumed: false, emitted: None });

    let press_new = process_key_event(&mut state, Key::F3, true);
    assert_eq!(
        press_new,
        ProcessResult { consumed: true, emitted: Some(HotkeyEvent::HoldStart) }
    );
}

#[test]
fn emits_toggle_and_hold_events_correctly() {
    let toggle_hotkey = validate_hotkey("F2").unwrap();
    let hold_hotkey = validate_hotkey("F3").unwrap();

    let mut toggle_state = new_state(&toggle_hotkey, InputMode::Toggle);
    assert_eq!(
        process_key_event(&mut toggle_state, Key::F2, true),
        ProcessResult { consumed: true, emitted: Some(HotkeyEvent::ShortPress) }
    );
    assert_eq!(
        process_key_event(&mut toggle_state, Key::F2, false),
        ProcessResult { consumed: true, emitted: None }
    );

    let mut hold_state = new_state(&hold_hotkey, InputMode::Hold);
    assert_eq!(
        process_key_event(&mut hold_state, Key::F3, true),
        ProcessResult { consumed: true, emitted: Some(HotkeyEvent::HoldStart) }
    );
    assert_eq!(
        process_key_event(&mut hold_state, Key::F3, false),
        ProcessResult { consumed: true, emitted: Some(HotkeyEvent::HoldEnd) }
    );
}

#[test]
fn hold_mode_modifier_released_first() {
    let hotkey = validate_hotkey("Ctrl+R").unwrap();
    let mut state = new_state(&hotkey, InputMode::Hold);

    // Ctrl press
    process_key_event(&mut state, Key::ControlLeft, true);
    // R press → HoldStart
    let result = process_key_event(&mut state, Key::KeyR, true);
    assert_eq!(
        result,
        ProcessResult { consumed: true, emitted: Some(HotkeyEvent::HoldStart) }
    );

    // Ctrl released first
    process_key_event(&mut state, Key::ControlLeft, false);
    // R released → should still emit HoldEnd
    let result = process_key_event(&mut state, Key::KeyR, false);
    assert_eq!(
        result,
        ProcessResult { consumed: true, emitted: Some(HotkeyEvent::HoldEnd) }
    );
}

#[test]
fn vk_to_key_covers_all_parse_key_spec_keys() {
    let test_keys = [
        "F1", "F2", "F3", "F4", "F5", "F6", "F7", "F8", "F9", "F10", "F11", "F12",
        "CapsLock", "NumLock", "ScrollLock", "Space", "Tab", "Enter", "Escape",
        "Backspace", "Delete", "Insert", "Home", "End", "PageUp", "PageDown",
        "Up", "Down", "Left", "Right", "PrintScreen", "Pause",
        "Num0", "Num1", "Num2", "Num3", "Num4", "Num5", "Num6", "Num7", "Num8", "Num9",
        "A", "B", "C", "D", "E", "F", "G", "H", "I", "J", "K", "L", "M",
        "N", "O", "P", "Q", "R", "S", "T", "U", "V", "W", "X", "Y", "Z",
        "0", "1", "2", "3", "4", "5", "6", "7", "8", "9",
        "`", "-", "=", "[", "]", "\\", ";", "'", ",", ".", "/",
    ];
    for key_name in &test_keys {
        let spec = parse_key_spec(key_name);
        assert!(spec.is_some(), "parse_key_spec should support: {}", key_name);
        let key = spec.unwrap().key;
        let _hash = key_hash(&key);
    }
}

#[test]
fn vk_to_key_roundtrip_modifiers() {
    assert_eq!(vk_to_key(0xA0), Some(Key::ShiftLeft));
    assert_eq!(vk_to_key(0xA1), Some(Key::ShiftRight));
    assert_eq!(vk_to_key(0xA2), Some(Key::ControlLeft));
    assert_eq!(vk_to_key(0xA3), Some(Key::ControlRight));
    assert_eq!(vk_to_key(0xA4), Some(Key::Alt));
    assert_eq!(vk_to_key(0xA5), Some(Key::AltGr));
    assert_eq!(vk_to_key(0x5B), Some(Key::MetaLeft));
    assert_eq!(vk_to_key(0x5C), Some(Key::MetaRight));
}

#[test]
fn vk_to_key_common_keys() {
    assert_eq!(vk_to_key(0x41), Some(Key::KeyA));
    assert_eq!(vk_to_key(0x5A), Some(Key::KeyZ));
    assert_eq!(vk_to_key(0x30), Some(Key::Num0));
    assert_eq!(vk_to_key(0x39), Some(Key::Num9));
    assert_eq!(vk_to_key(0x70), Some(Key::F1));
    assert_eq!(vk_to_key(0x7B), Some(Key::F12));
    assert_eq!(vk_to_key(0x14), Some(Key::CapsLock));
    assert_eq!(vk_to_key(0x20), Some(Key::Space));
    assert_eq!(vk_to_key(0x1B), Some(Key::Escape));
    assert_eq!(vk_to_key(0xFF), None);
}

#[test]
fn escape_abort_disabled_never_emits() {
    let mut esc = reset_escape_abort_state(false, true);

    assert_eq!(process_escape_abort_event(&mut esc, true), None);
    assert_eq!(process_escape_abort_event(&mut esc, false), None);
}

#[test]
fn escape_abort_inactive_never_emits() {
    let mut esc = reset_escape_abort_state(true, false);

    assert_eq!(process_escape_abort_event(&mut esc, true), None);
    assert_eq!(process_escape_abort_event(&mut esc, false), None);
}

#[test]
fn escape_abort_active_emits_once_on_keydown() {
    let mut esc = reset_escape_abort_state(true, true);

    assert_eq!(
        process_escape_abort_event(&mut esc, true),
        Some(ProcessResult { consumed: true, emitted: Some(HotkeyEvent::AbortSession) })
    );
    assert_eq!(
        process_escape_abort_event(&mut esc, true),
        Some(ProcessResult { consumed: true, emitted: None })
    );
    assert_eq!(
        process_escape_abort_event(&mut esc, false),
        Some(ProcessResult { consumed: true, emitted: None })
    );
}

#[test]
fn release_without_prior_press_not_consumed() {
    let hotkey = validate_hotkey("Ctrl+R").unwrap();
    let mut state = new_state(&hotkey, InputMode::Hold);

    let result = process_key_event(&mut state, Key::KeyR, false);
    assert_eq!(result, ProcessResult { consumed: false, emitted: None });
}

// ── Further cases ──

#[test]
fn rejects_empty_and_duplicate_modifiers() {
    assert_eq!(validate_hotkey(" + ").unwrap_err(), "快捷键不能为空");
    assert_eq!(validate_hotkey("Ctrl+ctrl+V").unwrap_err(), "快捷键中不能重复使用 Ctrl");
    assert_eq!(validate_hotkey("Alt+Alt+V").unwrap_err(), "快捷键中不能重复使用 Alt");
    assert_eq!(validate_hotkey("Shift+Shift+V").unwrap_err(), "快捷键中不能重复使用 Shift");
    assert_eq!(validate_hotkey("Ctrl+Foo").unwrap_err(), "不支持的快捷键: Foo");
}

#[test]
fn normalizes_modifier_order_and_aliases() {
    let h = validate_hotkey("shift+alt+ctrl+prtsc").unwrap();
    assert_eq!(h.normalized(), "Ctrl+Alt+Shift+PrintScreen");
    let h = validate_hotkey("Alt+num5").unwrap();
    assert_eq!(h.normalized(), "Alt+Num5");
    assert_eq!(h.combo().key, Key::Kp5);
    assert_eq!(validate_hotkey("esc").unwrap().normalized(), "Escape");
}

#[test]
fn normalized_name_validates_to_itself() {
    for name in [" control + shift + v ", "alt+f4x", "ctrl+enter", "Caps", "shift+`"] {
        if let Ok(h) = validate_hotkey(name) {
            let again = validate_hotkey(h.normalized()).unwrap();
            assert_eq!(again.normalized(), h.normalized());
            assert_eq!(again.combo(), h.combo());
        }
    }
}

#[test]
fn key_hash_is_the_virtual_key_code() {
    assert_eq!(key_hash(&Key::KeyA), 0x41);
    assert_eq!(key_hash(&Key::ShiftLeft), 0xA0);
    assert_ne!(key_hash(&Key::F1), key_hash(&Key::F2));
}

#[test]
fn handle_key_event_uses_fallback_while_locked() {
    let hotkey = validate_hotkey("Ctrl+R").unwrap();
    let mut rt = HotkeyRuntime::new();
    // Before the listener starts, nothing is consumed.
    assert_eq!(
        handle_key_event(&mut rt, false, Key::KeyR, true),
        ProcessResult { consumed: false, emitted: None }
    );
    speakin::hotkey::prepare_listener(&mut rt, &hotkey, InputMode::Toggle);
    assert_eq!(
        handle_key_event(&mut rt, true, Key::KeyR, true),
        ProcessResult { consumed: true, emitted: None }
    );
    assert_eq!(
        handle_key_event(&mut rt, true, Key::ControlLeft, true),
        ProcessResult { consumed: false, emitted: None }
    );
    assert_eq!(
        handle_key_event(&mut rt, false, Key::ControlLeft, true),
        ProcessResult { consumed: false, emitted: None }
    );
    assert_eq!(
        handle_key_event(&mut rt, false, Key::KeyR, true),
        ProcessResult { consumed: true, emitted: Some(HotkeyEvent::ShortPress) }
    );
    let f5 = validate_hotkey("F5").unwrap();
    update_config(&mut rt, &f5, InputMode::Hold);
    assert_eq!(rt.trigger_key_hash, 0x74);
    assert_eq!(rt.state.unwrap().is_key_down, false);
}

#[test]
fn handle_key_event_escape_abort() {
    let mut rt = HotkeyRuntime::new();
    let hotkey = validate_hotkey("F2").unwrap();
    speakin::hotkey::prepare_listener(&mut rt, &hotkey, InputMode::Toggle);
    speakin::hotkey::set_escape_abort_active(&mut rt, true);
    assert_eq!(
        handle_key_event(&mut rt, false, Key::Escape, true),
        ProcessResult { consumed: true, emitted: Some(HotkeyEvent::AbortSession) }
    );
    speakin::hotkey::update_escape_abort_config(&mut rt, false);
    assert_eq!(
        handle_key_event(&mut rt, false, Key::Escape, false),
        ProcessResult { consumed: true, emitted: None }
    );
    assert_eq!(
        handle_key_event(&mut rt, false, Key::Escape, true),
        ProcessResult { consumed: false, emitted: None }
    );
}

#[test]
fn normalized_hotkeys_validate_to_themselves() {
    for input in [" control + shift + v ", "shift+alt+ctrl+num5", "caps", "ctrl + ,", "Alt+printscreen", " f9 "] {
        let first = validate_hotkey(input).unwrap();
        let again = validate_hotkey(first.normalized()).unwrap();
        assert_eq!(again.normalized(), first.normalized());
        assert_eq!(again.combo(), first.combo());
    }
    assert_eq!(validate_hotkey("shift+alt+ctrl+num5").unwrap().normalized(), "Ctrl+Alt+Shift+Num5");
    assert_eq!(validate_hotkey("ctrl + ,").unwrap().normalized(), "Ctrl+,");
}

#[test]
fn validated_names_are_in_normal_form() {
    let h = validate_hotkey("shift + a + ALT + ctrl").unwrap();
    assert_eq!(h.normalized(), "Ctrl+Alt+Shift+A");
    assert_eq!(h.combo().modifiers, 7);
    assert_eq!(h.combo().key, Key::KeyA);
    let h = validate_hotkey(" prtsc ").unwrap();
    assert_eq!(h.normalized(), "PrintScreen");
    assert_eq!(h.combo().modifiers, 0);
    assert_eq!(h.combo().key, Key::PrintScreen);
    assert!(validate_hotkey("alt+f4").is_err());
    assert!(validate_hotkey("Num5").is_err());
}
