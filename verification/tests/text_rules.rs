use speakin::input::{
    choose_saved_clipboard, output_mode_label, sanitize_for_typing, send_text,
    should_restore_clipboard, OutputAction, OutputMode, SavedClipboard, MAX_IMAGE_RESTORE_BYTES,
};
use speakin::pipeline::{
    check_optimized_text, optimized_log_message, output_log_message, process_text,
    should_output, text_within_limit, validate_replacements, MAX_TEXT_LEN,
};
use speakin::replacements::{
    apply_replacements, replace_ignore_case, TextReplacement, TextReplacementsFile,
};
use speakin::settings::AppSettings;

fn rule(from: &str, to: &str) -> TextReplacement {
    TextReplacement { from: from.to_string(), to: to.to_string() }
}

#[test]
fn longer_patterns_apply_first() {
    let rules = vec![rule("ab", "X"), rule("abc", "Y")];
    assert_eq!(apply_replacements("abcab", &rules, false), "YX");
}

#[test]
fn empty_patterns_are_skipped_and_order_is_stable() {
    let rules = vec![rule("", "Z"), rule("a", "1"), rule("b", "2"), rule("1", "3")];
    // "a" then "b" then "1" (all one byte, given order): a→1→3
    assert_eq!(apply_replacements("ab", &rules, false), "32");
}

#[test]
fn byte_length_orders_patterns() {
    // "你" is three UTF-8 bytes, "ab" two: "你" goes first.
    let rules = vec![rule("ab", "你"), rule("你", "x")];
    assert_eq!(apply_replacements("ab你", &rules, false), "你x");
}

#[test]
fn ignore_case_replacement_keeps_surrounding_text() {
    assert_eq!(replace_ignore_case("Hello WORLD world", "world", "地球"), "Hello 地球 地球");
    let rules = vec![rule("API", "接口")];
    assert_eq!(apply_replacements("call the api Api", &rules, true), "call the 接口 接口");
    assert_eq!(apply_replacements("call the api", &rules, false), "call the api");
}

#[test]
fn ignore_case_keeps_text_whose_lowercase_is_longer() {
    // U+0130 lower-cases to two characters; the text around it is kept.
    assert_eq!(replace_ignore_case("İx", "x", "y"), "İy");
    assert_eq!(apply_replacements("İa", &[rule("a", "b")], true), "İb");
    assert_eq!(replace_ignore_case("xİy", "İ", "I"), "xIy");
    assert_eq!(replace_ignore_case("aİb", "i", "-"), "aİb");
}

#[test]
fn ignore_case_lowers_the_text_as_a_whole() {
    // A word-final capital sigma lower-cases to the final form, which a
    // plain sigma does not match; elsewhere it matches.
    assert_eq!(replace_ignore_case("ΑΣ", "σ", "x"), "ΑΣ");
    assert_eq!(replace_ignore_case("ΣΑ", "σ", "x"), "xΑ");
}

#[test]
fn replacement_validation() {
    let ok = TextReplacementsFile { replacements: vec![rule("a", "b")] };
    assert!(validate_replacements(&ok).is_ok());
    let blank = TextReplacementsFile { replacements: vec![rule("a", "b"), rule("  ", "c")] };
    assert_eq!(validate_replacements(&blank), Err("替换词的原文不能为空".to_string()));
    let same = TextReplacementsFile { replacements: vec![rule("同", "同")] };
    assert_eq!(validate_replacements(&same), Err("替换词「同」的原文和替换内容相同".to_string()));
    let many = TextReplacementsFile { replacements: (0..201).map(|i| rule(&format!("k{}", i), "v")).collect() };
    assert_eq!(validate_replacements(&many), Err("替换规则不能超过 200 条".to_string()));
}

#[test]
fn pipeline_cleans_fillers_then_replaces() {
    let mut s = AppSettings::default();
    s.replacement_enabled = true;
    s.output_mode = "paste".to_string();
    let file = TextReplacementsFile { replacements: vec![rule("天气", "weather")] };
    let p = process_text(&s, &file, "嗯，今天天气不错".to_string(), false);
    assert_eq!(p.text, "今天weather不错");
    assert_eq!(p.mode, OutputMode::Paste);
    assert!(!p.copy_to_clipboard);
    assert!(p.restore_clipboard);
    // After AI optimization the filler step is skipped.
    let p = process_text(&s, &file, "嗯，天气".to_string(), true);
    assert_eq!(p.text, "嗯，weather");
}

#[test]
fn output_decisions_and_messages() {
    assert!(should_output("x", OutputMode::Type, false));
    assert!(!should_output("x", OutputMode::NoOutput, false));
    assert!(should_output("x", OutputMode::NoOutput, true));
    assert!(!should_output("", OutputMode::Paste, true));
    assert_eq!(
        output_log_message("你好 ab", OutputMode::Type, true, true).as_deref(),
        Some("已输出文字 [模拟输入，5 字，已同步剪贴板并恢复]")
    );
    assert_eq!(
        output_log_message("你好", OutputMode::Paste, false, true).as_deref(),
        Some("已输出文字 [粘贴，2 字]")
    );
    assert_eq!(output_log_message("  ", OutputMode::Paste, false, false), None);
    assert_eq!(optimized_log_message("优化后"), "已写入 AI 优化结果 [3 字]");
    assert!(text_within_limit(&"a".repeat(MAX_TEXT_LEN)));
    assert!(!text_within_limit(&"a".repeat(MAX_TEXT_LEN + 1)));
    assert_eq!(check_optimized_text(&"a".repeat(MAX_TEXT_LEN + 1)), Err("text_too_long".to_string()));
}

#[test]
fn output_modes_and_typing() {
    assert_eq!(OutputMode::from_str("paste"), OutputMode::Paste);
    assert_eq!(OutputMode::from_str("type"), OutputMode::Type);
    assert_eq!(OutputMode::from_str("none"), OutputMode::NoOutput);
    assert_eq!(output_mode_label(OutputMode::NoOutput), "仅保留应用内");
    assert_eq!(sanitize_for_typing("a\nb\r\tc\u{7}d\u{85}"), "a b \tcd");
    assert_eq!(send_text("", OutputMode::Paste, false, true), OutputAction::Nothing);
    assert_eq!(send_text("x", OutputMode::Paste, false, true), OutputAction::Paste { restore: true });
    assert_eq!(send_text("x", OutputMode::Paste, true, true), OutputAction::Paste { restore: false });
    assert_eq!(
        send_text("a\nb", OutputMode::Type, true, false),
        OutputAction::Type { typed: "a b".to_string(), copy: true }
    );
    assert_eq!(send_text("x", OutputMode::NoOutput, true, false), OutputAction::CopyOnly);
    assert_eq!(send_text("x", OutputMode::NoOutput, false, false), OutputAction::Nothing);
}

#[test]
fn clipboard_restore_choices() {
    assert_eq!(choose_saved_clipboard(false, Some("t".into()), None), SavedClipboard::Skip);
    assert_eq!(
        choose_saved_clipboard(true, Some("old".into()), Some(10)),
        SavedClipboard::Text("old".to_string())
    );
    assert_eq!(choose_saved_clipboard(true, Some(String::new()), Some(10)), SavedClipboard::Image);
    assert_eq!(
        choose_saved_clipboard(true, None, Some(MAX_IMAGE_RESTORE_BYTES + 1)),
        SavedClipboard::ClearAfterPaste
    );
    assert_eq!(choose_saved_clipboard(true, None, None), SavedClipboard::ClearAfterPaste);
    assert!(should_restore_clipboard(Some("p".into()), "p"));
    assert!(!should_restore_clipboard(Some("q".into()), "p"));
    assert!(!should_restore_clipboard(None, "p"));
}

#[test]
fn typed_text_holds_no_control_keys() {
    let typed = sanitize_for_typing("line one\r\nline two\n\tindented\u{1b}[0m\u{7f}end");
    assert_eq!(typed, "line one  line two \tindented[0mend");
    assert!(typed.chars().all(|c| !c.is_control() || c == '\t'));
    assert_eq!(sanitize_for_typing(&typed), typed);
}
