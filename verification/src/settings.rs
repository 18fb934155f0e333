//! Application settings, usage statistics and transcript records, and the
//! rules that normalize, sanitize and validate them.
use vstd::prelude::*;
use crate::ai::AiOptimizeSettings;
use crate::ai::providers::AiProvider;
use crate::hotkey::{validate_hotkey, validate_spec, HotkeyCombo, InputMode, ValidatedHotkey};
use crate::text::{owned, push_str, str_eq, trim, trim_str};

verus! {

/// Doubao (豆包) provider settings.  The credentials live in the OS keyring;
/// the settings file never holds them.
#[derive(Debug, Clone)]
pub struct DoubaoProviderSettings {
    pub app_id: String,
    pub access_token: String,
    pub resource_id: String,
    pub asr_mode: String,
}

/// DashScope (百炼) provider settings.
#[derive(Debug, Clone)]
pub struct DashScopeProviderSettings {
    pub api_key: String,
    pub model: String,
    pub region: String,
}

/// Qwen ASR (千问) provider settings.
#[derive(Debug, Clone)]
pub struct QwenProviderSettings {
    pub api_key: String,
    pub model: String,
    pub region: String,
    pub language: String,
}

pub fn default_resource_id() -> (s: String)
    ensures
        s@ == "volc.seedasr.sauc.duration"@,
{
    owned("volc.seedasr.sauc.duration")
}

pub fn default_dashscope_model() -> (s: String)
    ensures
        s@ == "paraformer-realtime-v2"@,
{
    owned("paraformer-realtime-v2")
}

pub fn default_region() -> (s: String)
    ensures
        s@ == "beijing"@,
{
    owned("beijing")
}

pub fn default_qwen_model() -> (s: String)
    ensures
        s@ == "qwen3-asr-flash-realtime"@,
{
    owned("qwen3-asr-flash-realtime")
}

pub fn default_qwen_language() -> (s: String)
    ensures
        s@ == "zh"@,
{
    owned("zh")
}

pub fn default_provider() -> (s: String)
    ensures
        s@ == "doubao"@,
{
    owned("doubao")
}

pub fn default_sound_start() -> (s: String)
    ensures
        s@ == "default-start"@,
{
    owned("default-start")
}

pub fn default_sound_stop() -> (s: String)
    ensures
        s@ == "default-stop"@,
{
    owned("default-stop")
}

pub fn default_sound_error() -> (s: String)
    ensures
        s@ == "default-error"@,
{
    owned("default-error")
}

pub fn default_audio_source() -> (s: String)
    ensures
        s@ == "microphone"@,
{
    owned("microphone")
}

pub fn default_theme_color() -> (s: String)
    ensures
        s@ == "blue"@,
{
    owned("blue")
}

pub fn default_close_behavior() -> (s: String)
    ensures
        s@ == "ask"@,
{
    owned("ask")
}

pub fn default_output_mode() -> (s: String)
    ensures
        s@ == "type"@,
{
    owned("type")
}

pub fn default_asr_mode() -> (s: String)
    ensures
        s@ == "bistream"@,
{
    owned("bistream")
}

pub fn default_transcript_status() -> (s: String)
    ensures
        s@ == "done"@,
{
    owned("done")
}

pub fn default_true() -> (b: bool)
    ensures
        b,
{
    true
}

pub fn default_silence_auto_stop_secs() -> (n: u8)
    ensures
        n == 6,
{
    6
}

pub fn default_vad_sensitivity() -> (n: u8)
    ensures
        n == 7,
{
    7
}

impl Default for DoubaoProviderSettings {
    fn default() -> (s: Self)
        ensures
            s.app_id@ == Seq::<char>::empty(),
            s.access_token@ == Seq::<char>::empty(),
            s.resource_id@ == "volc.seedasr.sauc.duration"@,
            s.asr_mode@ == "bistream"@,
    {
        DoubaoProviderSettings {
            app_id: String::new(),
            access_token: String::new(),
            resource_id: default_resource_id(),
            asr_mode: default_asr_mode(),
        }
    }
}

impl Default for DashScopeProviderSettings {
    fn default() -> (s: Self)
        ensures
            s.api_key@ == Seq::<char>::empty(),
            s.model@ == "paraformer-realtime-v2"@,
            s.region@ == "beijing"@,
    {
        DashScopeProviderSettings {
            api_key: String::new(),
            model: default_dashscope_model(),
            region: default_region(),
        }
    }
}

impl Default for QwenProviderSettings {
    fn default() -> (s: Self)
        ensures
            s.api_key@ == Seq::<char>::empty(),
            s.model@ == "qwen3-asr-flash-realtime"@,
            s.region@ == "beijing"@,
            s.language@ == "zh"@,
    {
        QwenProviderSettings {
            api_key: String::new(),
            model: default_qwen_model(),
            region: default_region(),
            language: default_qwen_language(),
        }
    }
}

/// Application settings.
#[derive(Debug, Clone)]
pub struct AppSettings {
    pub provider: String,
    pub doubao: DoubaoProviderSettings,
    pub dashscope: DashScopeProviderSettings,
    pub qwen: QwenProviderSettings,
    pub ai_optimize: AiOptimizeSettings,
    pub hotkey: String,
    pub input_mode: String,
    pub device_name: String,
    /// "microphone" | "system"
    pub audio_source: String,
    pub output_mode: String,
    pub mic_always_on: bool,
    pub debug_mode: bool,
    pub filler_enabled: bool,
    pub replacement_enabled: bool,
    pub replacement_ignore_case: bool,
    pub theme_color: String,
    pub recording_follows_theme: bool,
    pub show_overlay: bool,
    pub show_overlay_subtitle: bool,
    pub close_behavior: String,
    pub onboarding_completed: bool,
    pub copy_to_clipboard: bool,
    pub paste_restore_clipboard: bool,
    pub system_no_auto_stop: bool,
    pub esc_abort_enabled: bool,
    pub silence_auto_stop_secs: u8,
    pub vad_sensitivity: u8,
    pub sound_preset_start: String,
    pub sound_preset_stop: String,
    pub sound_preset_error: String,
}

/// The default hotkey.
pub open spec fn default_hotkey() -> Seq<char> {
    "Ctrl+Shift+V"@
}

/// The factory settings.
pub open spec fn is_default_settings(s: AppSettings) -> bool {
    &&& s.provider@ == "doubao"@
    &&& s.doubao.app_id@ == Seq::<char>::empty()
    &&& s.doubao.access_token@ == Seq::<char>::empty()
    &&& s.doubao.resource_id@ == "volc.seedasr.sauc.duration"@
    &&& s.doubao.asr_mode@ == "bistream"@
    &&& s.dashscope.api_key@ == Seq::<char>::empty()
    &&& s.dashscope.model@ == "paraformer-realtime-v2"@
    &&& s.dashscope.region@ == "beijing"@
    &&& s.qwen.api_key@ == Seq::<char>::empty()
    &&& s.qwen.model@ == "qwen3-asr-flash-realtime"@
    &&& s.qwen.region@ == "beijing"@
    &&& s.qwen.language@ == "zh"@
    &&& !s.ai_optimize.enabled
    &&& s.ai_optimize.active_provider_id@ == Seq::<char>::empty()
    &&& s.ai_optimize.active_prompt_id@ == Seq::<char>::empty()
    &&& s.ai_optimize.connect_timeout_secs == 5
    &&& s.ai_optimize.max_request_secs == 60
    &&& s.hotkey@ == default_hotkey()
    &&& s.input_mode@ == "toggle"@
    &&& s.device_name@ == Seq::<char>::empty()
    &&& s.audio_source@ == "microphone"@
    &&& s.output_mode@ == "type"@
    &&& !s.mic_always_on
    &&& !s.debug_mode
    &&& s.filler_enabled
    &&& !s.replacement_enabled
    &&& !s.replacement_ignore_case
    &&& s.theme_color@ == "blue"@
    &&& s.recording_follows_theme
    &&& s.show_overlay
    &&& s.show_overlay_subtitle
    &&& s.close_behavior@ == "ask"@
    &&& !s.onboarding_completed
    &&& !s.copy_to_clipboard
    &&& s.paste_restore_clipboard
    &&& !s.system_no_auto_stop
    &&& s.esc_abort_enabled
    &&& s.silence_auto_stop_secs == 6
    &&& s.vad_sensitivity == 7
    &&& s.sound_preset_start@ == "default-start"@
    &&& s.sound_preset_stop@ == "default-stop"@
    &&& s.sound_preset_error@ == "default-error"@
}

impl Default for AppSettings {
    fn default() -> (s: Self)
        ensures
            is_default_settings(s),
    {
        AppSettings {
            provider: default_provider(),
            doubao: DoubaoProviderSettings::default(),
            dashscope: DashScopeProviderSettings::default(),
            qwen: QwenProviderSettings::default(),
            ai_optimize: AiOptimizeSettings::default(),
            hotkey: owned("Ctrl+Shift+V"),
            input_mode: owned("toggle"),
            device_name: String::new(),
            audio_source: default_audio_source(),
            // Default to keystroke simulation — works in all input fields
            // including those that block paste (terminals, native widgets).
            output_mode: owned("type"),
            mic_always_on: false,
            debug_mode: false,
            filler_enabled: true,
            replacement_enabled: false,
            replacement_ignore_case: false,
            theme_color: default_theme_color(),
            recording_follows_theme: true,
            show_overlay: true,
            show_overlay_subtitle: true,
            close_behavior: owned("ask"),
            onboarding_completed: false,
            copy_to_clipboard: false,
            paste_restore_clipboard: true,
            system_no_auto_stop: false,
            esc_abort_enabled: true,
            silence_auto_stop_secs: default_silence_auto_stop_secs(),
            vad_sensitivity: default_vad_sensitivity(),
            sound_preset_start: default_sound_start(),
            sound_preset_stop: default_sound_stop(),
            sound_preset_error: default_sound_error(),
        }
    }
}

// ── Input mode ──

/// The stored input mode: `"hold"` stays, anything else becomes `"toggle"`.
pub open spec fn normalized_input_mode(value: Seq<char>) -> Seq<char> {
    if value == "hold"@ {
        "hold"@
    } else {
        "toggle"@
    }
}

pub fn normalize_input_mode(value: &str) -> (s: String)
    ensures
        s@ == normalized_input_mode(value@),
{
    if str_eq(value, "hold") {
        owned("hold")
    } else {
        owned("toggle")
    }
}

pub open spec fn input_mode_of(value: Seq<char>) -> InputMode {
    if value == "hold"@ {
        InputMode::Hold
    } else {
        InputMode::Toggle
    }
}

pub fn input_mode_from_str(value: &str) -> (m: InputMode)
    ensures
        m == input_mode_of(value@),
{
    if str_eq(value, "hold") {
        InputMode::Hold
    } else {
        InputMode::Toggle
    }
}

// ── Usage statistics ──

/// Usage statistics (independent of settings).
#[derive(Debug, Clone, Copy, PartialEq, Eq, Structural)]
pub struct UsageStats {
    pub total_sessions: u64,
    pub total_recording_duration_ms: u64,
    pub total_characters: u64,
    pub total_chinese_chars: u64,
}

impl Default for UsageStats {
    fn default() -> (s: Self)
        ensures
            s == (UsageStats {
                total_sessions: 0,
                total_recording_duration_ms: 0,
                total_characters: 0,
                total_chinese_chars: 0,
            }),
    {
        UsageStats {
            total_sessions: 0,
            total_recording_duration_ms: 0,
            total_characters: 0,
            total_chinese_chars: 0,
        }
    }
}

/// CJK Unified Ideographs (basic block, extensions A to F) and the
/// compatibility ideographs.
pub open spec fn is_cjk(c: char) -> bool {
    ||| '\u{4E00}' <= c <= '\u{9FFF}'
    ||| '\u{3400}' <= c <= '\u{4DBF}'
    ||| '\u{20000}' <= c <= '\u{2A6DF}'
    ||| '\u{2A700}' <= c <= '\u{2CEAF}'
    ||| '\u{F900}' <= c <= '\u{FAFF}'
}

/// Number of CJK characters in `s`.
pub open spec fn cjk_count(s: Seq<char>) -> nat
    decreases s.len(),
{
    if s.len() == 0 {
        0
    } else {
        cjk_count(s.drop_last()) + if is_cjk(s.last()) {
            1nat
        } else {
            0nat
        }
    }
}

proof fn lemma_cjk_count_bound(s: Seq<char>)
    ensures
        cjk_count(s) <= s.len(),
    decreases s.len(),
{
    if s.len() > 0 {
        lemma_cjk_count_bound(s.drop_last());
    }
}

/// Count CJK characters in text (covers CJK Unified Ideographs + extensions).
pub fn count_chinese_chars(text: &str) -> (n: u64)
    ensures
        n == cjk_count(text@),
{
    let v = crate::text::chars_of(text);
    let mut n: u64 = 0;
    let mut i: usize = 0;
    while i < v.len()
        invariant
            i <= v@.len(),
            n == cjk_count(v@.take(i as int)),
            n <= i,
        decreases v@.len() - i,
    {
        let c = v[i];
        assert(v@.take(i + 1).drop_last() =~= v@.take(i as int));
        if ('\u{4E00}' <= c && c <= '\u{9FFF}') || ('\u{3400}' <= c && c <= '\u{4DBF}') || (
        '\u{20000}' <= c && c <= '\u{2A6DF}') || ('\u{2A700}' <= c && c <= '\u{2CEAF}') || (
        '\u{F900}' <= c && c <= '\u{FAFF}') {
            n = n + 1;
        }
        i = i + 1;
    }
    assert(v@.take(i as int) =~= v@);
    n
}

impl UsageStats {
    /// Add one recording session of `session_duration_ms` that produced
    /// `text`.
    pub fn record_session(&mut self, session_duration_ms: u64, text: &str)
        requires
            old(self).total_sessions < u64::MAX,
            old(self).total_recording_duration_ms + session_duration_ms <= u64::MAX,
            old(self).total_characters + text@.len() <= u64::MAX,
            old(self).total_chinese_chars + cjk_count(text@) <= u64::MAX,
        ensures
            final(self).total_sessions == old(self).total_sessions + 1,
            final(self).total_recording_duration_ms == old(self).total_recording_duration_ms
                + session_duration_ms,
            final(self).total_characters == old(self).total_characters + text@.len(),
            final(self).total_chinese_chars == old(self).total_chinese_chars + cjk_count(text@),
    {
        let count = crate::text::chars_of(text).len() as u64;
        self.total_sessions = self.total_sessions + 1;
        self.total_recording_duration_ms = self.total_recording_duration_ms + session_duration_ms;
        self.total_characters = self.total_characters + count;
        self.total_chinese_chars = self.total_chinese_chars + count_chinese_chars(text);
    }
}

// ── Event payloads and transcript records ──

/// Payload for the `recording-status` event.
#[derive(Debug, Clone)]
pub struct RecordingStatusPayload {
    pub recording: bool,
    pub generation: u64,
    /// For `recording: false`, whether voice activity was ever detected.
    pub had_speech: bool,
}

/// Payload for the `session-force-abort` event.
#[derive(Debug, Clone)]
pub struct SessionAbortPayload {
    pub generation: u64,
    pub reason: String,
}

/// A recent transcript record for recovery/backup.
#[derive(Debug, Clone)]
pub struct TranscriptRecord {
    pub id: String,
    pub timestamp: u64,
    pub original: String,
    pub final_text: String,
    pub optimized: Option<String>,
    pub duration_ms: u64,
    /// Completion state: "done" | "partial" | "aborted".
    pub status: String,
}

// ── Validation and sanitizing ──

/// Whether an AI provider with id `id` is among `providers`.
pub open spec fn provider_listed(id: Seq<char>, providers: Seq<AiProvider>) -> bool {
    exists|i: int| 0 <= i < providers.len() && (#[trigger] providers[i]).id@ == id
}

/// An AI provider is selected and exists.
pub open spec fn selected_provider_exists(id: Seq<char>, providers: Seq<AiProvider>) -> bool {
    id.len() > 0 && provider_listed(id, providers)
}

fn id_listed(id: &str, providers: &[AiProvider]) -> (b: bool)
    ensures
        b == provider_listed(id@, providers@),
{
    let mut i: usize = 0;
    while i < providers.len()
        invariant
            i <= providers@.len(),
            forall|k: int| 0 <= k < i ==> (#[trigger] providers@[k]).id@ != id@,
        decreases providers@.len() - i,
    {
        if str_eq(providers[i].id.as_str(), id) {
            return true;
        }
        i = i + 1;
    }
    false
}

pub fn has_selected_ai_provider(settings: &AppSettings, ai_providers: &[AiProvider]) -> (b: bool)
    ensures
        b == selected_provider_exists(settings.ai_optimize.active_provider_id@, ai_providers@),
{
    !settings.ai_optimize.active_provider_id.as_str().is_empty() && id_listed(
        settings.ai_optimize.active_provider_id.as_str(),
        ai_providers,
    )
}

pub open spec fn validate_ai_spec(enabled: bool, id: Seq<char>, providers: Seq<AiProvider>) -> Result<(), Seq<char>> {
    if !enabled {
        Ok(())
    } else if id.len() == 0 {
        Err("启用 AI 优化前，请先选择 AI 供应商"@)
    } else if !provider_listed(id, providers) {
        Err("所选 AI 供应商不存在，请重新选择"@)
    } else {
        Ok(())
    }
}

/// AI optimization may only be enabled with an existing provider selected.
pub fn validate_ai_optimize_settings(settings: &AppSettings, ai_providers: &[AiProvider]) -> (r: Result<(), String>)
    ensures
        crate::storage::unit_result_view(r) == validate_ai_spec(
            settings.ai_optimize.enabled,
            settings.ai_optimize.active_provider_id@,
            ai_providers@,
        ),
{
    if !settings.ai_optimize.enabled {
        return Ok(());
    }
    if settings.ai_optimize.active_provider_id.as_str().is_empty() {
        return Err(owned("启用 AI 优化前，请先选择 AI 供应商"));
    }
    if !has_selected_ai_provider(settings, ai_providers) {
        return Err(owned("所选 AI 供应商不存在，请重新选择"));
    }
    Ok(())
}

/// Joins a new startup warning onto the pending one with "；".
pub fn append_startup_warning(warning: &mut Option<String>, msg: String)
    ensures
        match *old(warning) {
            Some(w) => (*final(warning))->0@ == w@ + "；"@ + msg@,
            None => (*final(warning))->0@ == msg@,
        },
        *final(warning) is Some,
{
    let next = match warning.take() {
        Some(existing) => {
            let mut s = existing;
            push_str(&mut s, "；");
            push_str(&mut s, msg.as_str());
            s
        },
        None => msg,
    };
    *warning = Some(next);
}

/// Settings ready to save: normalized input mode, trimmed AI selections,
/// and the validated, normalized hotkey.
pub fn normalize_settings_for_save(settings: AppSettings) -> (r: Result<(AppSettings, ValidatedHotkey, InputMode), String>)
    ensures
        match r {
            Ok((s, h, m)) => {
                &&& validate_spec(settings.hotkey@) == Ok::<(Seq<char>, HotkeyCombo), Seq<char>>(h@)
                &&& s.hotkey@ == h@.0
                &&& s.input_mode@ == normalized_input_mode(settings.input_mode@)
                &&& m == input_mode_of(s.input_mode@)
                &&& s.ai_optimize.active_provider_id@ == trim(settings.ai_optimize.active_provider_id@)
                &&& s.ai_optimize.active_prompt_id@ == trim(settings.ai_optimize.active_prompt_id@)
                &&& s.ai_optimize.enabled == settings.ai_optimize.enabled
                &&& s.provider == settings.provider
                &&& s.output_mode == settings.output_mode
                &&& s.audio_source == settings.audio_source
            },
            Err(e) => validate_spec(settings.hotkey@) == Err::<(Seq<char>, HotkeyCombo), Seq<char>>(e@),
        },
{
    let mut settings = settings;
    settings.input_mode = normalize_input_mode(settings.input_mode.as_str());
    settings.ai_optimize.active_provider_id = trim_str(settings.ai_optimize.active_provider_id.as_str());
    settings.ai_optimize.active_prompt_id = trim_str(settings.ai_optimize.active_prompt_id.as_str());
    let input_mode = input_mode_from_str(settings.input_mode.as_str());
    let hotkey = validate_hotkey(settings.hotkey.as_str())?;
    settings.hotkey = owned(hotkey.normalized());
    Ok((settings, hotkey, input_mode))
}

// ── Provider credentials and labels ──

pub open spec fn credentials_spec(s: AppSettings) -> Result<(), Seq<char>> {
    if s.provider@ == "doubao"@ {
        if s.doubao.app_id@.len() == 0 || s.doubao.access_token@.len() == 0 {
            Err("请先配置豆包的 App ID 和 Access Token"@)
        } else {
            Ok(())
        }
    } else if s.provider@ == "dashscope"@ {
        if s.dashscope.api_key@.len() == 0 {
            Err("请先配置百炼语音识别的 API Key"@)
        } else {
            Ok(())
        }
    } else if s.provider@ == "qwen"@ {
        if s.qwen.api_key@.len() == 0 {
            Err("请先配置千问语音识别的 API Key"@)
        } else {
            Ok(())
        }
    } else {
        Err("未知供应商: "@ + s.provider@)
    }
}

/// Validate that the current provider has required credentials configured.
pub fn validate_provider_credentials(settings: &AppSettings) -> (r: Result<(), String>)
    ensures
        crate::storage::unit_result_view(r) == credentials_spec(*settings),
{
    let p = settings.provider.as_str();
    if str_eq(p, "doubao") {
        if settings.doubao.app_id.as_str().is_empty() || settings.doubao.access_token.as_str().is_empty() {
            return Err(owned("请先配置豆包的 App ID 和 Access Token"));
        }
    } else if str_eq(p, "dashscope") {
        if settings.dashscope.api_key.as_str().is_empty() {
            return Err(owned("请先配置百炼语音识别的 API Key"));
        }
    } else if str_eq(p, "qwen") {
        if settings.qwen.api_key.as_str().is_empty() {
            return Err(owned("请先配置千问语音识别的 API Key"));
        }
    } else {
        let mut m = owned("未知供应商: ");
        push_str(&mut m, p);
        return Err(m);
    }
    Ok(())
}

pub fn provider_label(provider: &str) -> (l: &'static str)
    ensures
        l@ == if provider@ == "dashscope"@ {
            "百炼"@
        } else if provider@ == "qwen"@ {
            "千问"@
        } else {
            "豆包"@
        },
{
    if str_eq(provider, "dashscope") {
        "百炼"
    } else if str_eq(provider, "qwen") {
        "千问"
    } else {
        "豆包"
    }
}

pub fn audio_source_label(audio_source: &str) -> (l: &'static str)
    ensures
        l@ == if audio_source@ == "system"@ {
            "系统声音"@
        } else {
            "麦克风"@
        },
{
    if str_eq(audio_source, "system") {
        "系统声音"
    } else {
        "麦克风"
    }
}

pub fn input_mode_label(input_mode: &str) -> (l: &'static str)
    ensures
        l@ == if input_mode@ == "hold"@ {
            "按住说话"@
        } else {
            "按键切换"@
        },
{
    if str_eq(input_mode, "hold") {
        "按住说话"
    } else {
        "按键切换"
    }
}

// ── Sanitizing loaded settings ──

pub open spec fn sanitized_provider(p: Seq<char>) -> Seq<char> {
    if p == "doubao"@ || p == "dashscope"@ || p == "qwen"@ {
        p
    } else {
        "doubao"@
    }
}

pub open spec fn sanitized_region(r: Seq<char>) -> Seq<char> {
    if r == "beijing"@ || r == "singapore"@ {
        r
    } else {
        "beijing"@
    }
}

pub open spec fn sanitized_secs(n: u8) -> u8 {
    if n < 3 || n > 60 {
        6
    } else {
        n
    }
}

pub open spec fn sanitized_vad(n: u8) -> u8 {
    if n < 1 || n > 10 {
        7
    } else {
        n
    }
}

/// The hotkey kept after loading: its normalized form, or the default when
/// it is invalid.
pub open spec fn sanitized_hotkey(h: Seq<char>) -> Seq<char> {
    match validate_spec(h) {
        Ok((n, _)) => n,
        Err(_) => default_hotkey(),
    }
}

/// The warning about an invalid stored hotkey.
pub open spec fn hotkey_warning(h: Seq<char>) -> Option<Seq<char>> {
    match validate_spec(h) {
        Ok(_) => None,
        Err(e) => Some("检测到无效热键配置（"@ + e + "），已回退为 "@ + default_hotkey()),
    }
}

/// The AI provider selection kept after loading: trimmed, and cleared when
/// no such provider exists.
pub open spec fn sanitized_ai_provider(id: Seq<char>, providers: Seq<AiProvider>) -> Seq<char> {
    if trim(id).len() > 0 && !provider_listed(trim(id), providers) {
        Seq::<char>::empty()
    } else {
        trim(id)
    }
}

/// AI optimization had to be switched off: it was enabled without an
/// existing provider selected.
pub open spec fn ai_disabled(enabled: bool, id: Seq<char>, providers: Seq<AiProvider>) -> bool {
    enabled && !selected_provider_exists(sanitized_ai_provider(id, providers), providers)
}

pub open spec fn join_warnings(a: Option<Seq<char>>, b: Option<Seq<char>>) -> Option<Seq<char>> {
    match (a, b) {
        (None, None) => None,
        (Some(x), None) => Some(x),
        (None, Some(y)) => Some(y),
        (Some(x), Some(y)) => Some(x + "；"@ + y),
    }
}

pub open spec fn ai_off_warning() -> Seq<char> {
    "AI 优化已关闭：启用前需要先选择 AI 供应商"@
}

/// Whether loading changed anything (so the settings must be saved again).
pub open spec fn sanitize_changed(s: AppSettings, providers: Seq<AiProvider>) -> bool {
    ||| normalized_input_mode(s.input_mode@) != s.input_mode@
    ||| sanitized_hotkey(s.hotkey@) != s.hotkey@
    ||| validate_spec(s.hotkey@) is Err
    ||| sanitized_provider(s.provider@) != s.provider@
    ||| sanitized_region(s.dashscope.region@) != s.dashscope.region@
    ||| sanitized_region(s.qwen.region@) != s.qwen.region@
    ||| sanitized_secs(s.silence_auto_stop_secs) != s.silence_auto_stop_secs
    ||| sanitized_vad(s.vad_sensitivity) != s.vad_sensitivity
    ||| trim(s.ai_optimize.active_provider_id@) != s.ai_optimize.active_provider_id@
    ||| trim(s.ai_optimize.active_prompt_id@) != s.ai_optimize.active_prompt_id@
    ||| sanitized_ai_provider(s.ai_optimize.active_provider_id@, providers) != trim(
        s.ai_optimize.active_provider_id@,
    )
    ||| ai_disabled(s.ai_optimize.enabled, s.ai_optimize.active_provider_id@, providers)
}

/// The fields that sanitizing never touches are equal.
pub open spec fn same_untouched(a: AppSettings, b: AppSettings) -> bool {
    &&& a.doubao == b.doubao
    &&& a.dashscope.api_key == b.dashscope.api_key
    &&& a.dashscope.model == b.dashscope.model
    &&& a.qwen.api_key == b.qwen.api_key
    &&& a.qwen.model == b.qwen.model
    &&& a.qwen.language == b.qwen.language
    &&& a.ai_optimize.connect_timeout_secs == b.ai_optimize.connect_timeout_secs
    &&& a.ai_optimize.max_request_secs == b.ai_optimize.max_request_secs
    &&& a.device_name == b.device_name
    &&& a.audio_source == b.audio_source
    &&& a.output_mode == b.output_mode
    &&& a.mic_always_on == b.mic_always_on
    &&& a.debug_mode == b.debug_mode
    &&& a.filler_enabled == b.filler_enabled
    &&& a.replacement_enabled == b.replacement_enabled
    &&& a.replacement_ignore_case == b.replacement_ignore_case
    &&& a.theme_color == b.theme_color
    &&& a.recording_follows_theme == b.recording_follows_theme
    &&& a.show_overlay == b.show_overlay
    &&& a.show_overlay_subtitle == b.show_overlay_subtitle
    &&& a.close_behavior == b.close_behavior
    &&& a.onboarding_completed == b.onboarding_completed
    &&& a.copy_to_clipboard == b.copy_to_clipboard
    &&& a.paste_restore_clipboard == b.paste_restore_clipboard
    &&& a.system_no_auto_stop == b.system_no_auto_stop
    &&& a.esc_abort_enabled == b.esc_abort_enabled
    &&& a.sound_preset_start == b.sound_preset_start
    &&& a.sound_preset_stop == b.sound_preset_stop
    &&& a.sound_preset_error == b.sound_preset_error
}

pub open spec fn opt_seq(w: Option<String>) -> Option<Seq<char>> {
    match w {
        Some(s) => Some(s@),
        None => None,
    }
}

fn sanitize_input_mode_field(mode: &String) -> (r: (String, bool))
    ensures
        r.0@ == normalized_input_mode(mode@),
        r.1 == (normalized_input_mode(mode@) != mode@),
{
    let n = normalize_input_mode(mode.as_str());
    let changed = !str_eq(n.as_str(), mode.as_str());
    (n, changed)
}

fn sanitize_hotkey_field(hotkey: &String) -> (r: (String, Option<String>, bool))
    ensures
        r.0@ == sanitized_hotkey(hotkey@),
        opt_seq(r.1) == hotkey_warning(hotkey@),
        r.2 == (sanitized_hotkey(hotkey@) != hotkey@ || validate_spec(hotkey@) is Err),
{
    match validate_hotkey(hotkey.as_str()) {
        Ok(validated) => {
            let changed = !str_eq(validated.normalized(), hotkey.as_str());
            (owned(validated.normalized()), None, changed)
        },
        Err(err) => {
            proof {
                crate::hotkey::lemma_default_hotkey_valid();
            }
            let default_hotkey = match validate_hotkey("Ctrl+Shift+V") {
                Ok(h) => h,
                Err(_) => vstd::pervasive::unreached(),
            };
            let normalized = owned(default_hotkey.normalized());
            let mut msg = owned("检测到无效热键配置（");
            push_str(&mut msg, err.as_str());
            push_str(&mut msg, "），已回退为 ");
            push_str(&mut msg, normalized.as_str());
            (normalized, Some(msg), true)
        },
    }
}

fn sanitize_provider_field(provider: &String) -> (r: (String, bool))
    ensures
        r.0@ == sanitized_provider(provider@),
        r.1 == (sanitized_provider(provider@) != provider@),
{
    if str_eq(provider.as_str(), "doubao") || str_eq(provider.as_str(), "dashscope") || str_eq(
        provider.as_str(),
        "qwen",
    ) {
        (provider.clone(), false)
    } else {
        proof {
            reveal_strlit("doubao");
        }
        (default_provider(), true)
    }
}

fn sanitize_region_field(region: &String) -> (r: (String, bool))
    ensures
        r.0@ == sanitized_region(region@),
        r.1 == (sanitized_region(region@) != region@),
{
    if str_eq(region.as_str(), "beijing") || str_eq(region.as_str(), "singapore") {
        (region.clone(), false)
    } else {
        (default_region(), true)
    }
}

fn sanitize_ai_fields(ai: &AiOptimizeSettings, ai_providers: &[AiProvider]) -> (r: (AiOptimizeSettings, Option<String>, bool))
    ensures
        ({
            let (a, warning, changed) = r;
            let id = ai.active_provider_id@;
            &&& a.active_provider_id@ == sanitized_ai_provider(id, ai_providers@)
            &&& a.active_prompt_id@ == trim(ai.active_prompt_id@)
            &&& a.enabled == (ai.enabled && !ai_disabled(ai.enabled, id, ai_providers@))
            &&& a.connect_timeout_secs == ai.connect_timeout_secs
            &&& a.max_request_secs == ai.max_request_secs
            &&& opt_seq(warning) == if ai_disabled(ai.enabled, id, ai_providers@) {
                Some(ai_off_warning())
            } else {
                None
            }
            &&& changed == (trim(id) != id || trim(ai.active_prompt_id@) != ai.active_prompt_id@
                || sanitized_ai_provider(id, ai_providers@) != trim(id) || ai_disabled(
                ai.enabled,
                id,
                ai_providers@,
            ))
        }),
{
    let mut changed = false;
    let mut provider_id = trim_str(ai.active_provider_id.as_str());
    if !str_eq(provider_id.as_str(), ai.active_provider_id.as_str()) {
        changed = true;
    }
    let prompt_id = trim_str(ai.active_prompt_id.as_str());
    if !str_eq(prompt_id.as_str(), ai.active_prompt_id.as_str()) {
        changed = true;
    }
    if !provider_id.as_str().is_empty() && !id_listed(provider_id.as_str(), ai_providers) {
        provider_id = String::new();
        changed = true;
    }
    let selected = !provider_id.as_str().is_empty() && id_listed(provider_id.as_str(), ai_providers);
    let mut enabled = ai.enabled;
    let mut warning: Option<String> = None;
    if enabled && !selected {
        enabled = false;
        changed = true;
        warning = Some(owned("AI 优化已关闭：启用前需要先选择 AI 供应商"));
    }
    (
        AiOptimizeSettings {
            enabled,
            active_provider_id: provider_id,
            active_prompt_id: prompt_id,
            connect_timeout_secs: ai.connect_timeout_secs,
            max_request_secs: ai.max_request_secs,
        },
        warning,
        changed,
    )
}

/// `s` is `settings` repaired against the AI providers: the input mode and
/// hotkey normalized (an invalid hotkey replaced by the default), unknown
/// providers and regions and out-of-range voice-detection values reset,
/// the AI selections trimmed, a selection of a missing provider cleared,
/// AI optimization off when no existing provider is selected, and every
/// other field as it was.
pub open spec fn repaired_from(settings: AppSettings, providers: Seq<AiProvider>, s: AppSettings) -> bool {
    let id = settings.ai_optimize.active_provider_id@;
    &&& s.input_mode@ == normalized_input_mode(settings.input_mode@)
    &&& s.hotkey@ == sanitized_hotkey(settings.hotkey@)
    &&& s.provider@ == sanitized_provider(settings.provider@)
    &&& s.dashscope.region@ == sanitized_region(settings.dashscope.region@)
    &&& s.qwen.region@ == sanitized_region(settings.qwen.region@)
    &&& s.silence_auto_stop_secs == sanitized_secs(settings.silence_auto_stop_secs)
    &&& s.vad_sensitivity == sanitized_vad(settings.vad_sensitivity)
    &&& s.ai_optimize.active_provider_id@ == sanitized_ai_provider(id, providers)
    &&& s.ai_optimize.active_prompt_id@ == trim(settings.ai_optimize.active_prompt_id@)
    &&& s.ai_optimize.enabled == (settings.ai_optimize.enabled && !ai_disabled(
        settings.ai_optimize.enabled,
        id,
        providers,
    ))
    &&& same_untouched(s, settings)
}

/// Repairing is done once: repaired settings need no further repair (so
/// they are not rewritten at the next start), raise no warning, and
/// repairing them again leaves them as they are.
pub proof fn lemma_repair_is_stable(settings: AppSettings, providers: Seq<AiProvider>, repaired: AppSettings)
    requires
        repaired_from(settings, providers, repaired),
    ensures
        !sanitize_changed(repaired, providers),
        hotkey_warning(repaired.hotkey@) is None,
        !ai_disabled(repaired.ai_optimize.enabled, repaired.ai_optimize.active_provider_id@, providers),
        repaired_from(repaired, providers, repaired),
{
    match validate_spec(settings.hotkey@) {
        Ok(_) => crate::hotkey::lemma_normalized_hotkey_is_stable(settings.hotkey@),
        Err(_) => crate::hotkey::lemma_default_hotkey_valid(),
    }
    reveal_strlit("hold");
    reveal_strlit("toggle");
    let id = settings.ai_optimize.active_provider_id@;
    crate::text::lemma_trim_idempotent(id);
    crate::text::lemma_trim_idempotent(settings.ai_optimize.active_prompt_id@);
    assert(trim(Seq::<char>::empty()) == Seq::<char>::empty());
}

/// Repair settings loaded from disk: normalize the input mode and hotkey
/// (falling back to the default hotkey when invalid), reset unknown
/// providers and regions and out-of-range voice-detection values, trim the
/// AI selections and drop a selection of a provider that no longer exists,
/// and switch AI optimization off when no provider is selected.  Also
/// returns the warning to show and whether anything changed.
pub fn sanitize_loaded_settings(settings: AppSettings, ai_providers: &[AiProvider]) -> (r: (AppSettings, Option<String>, bool))
    ensures
        ({
            let (s, warning, persist) = r;
            let id = settings.ai_optimize.active_provider_id@;
            &&& repaired_from(settings, ai_providers@, s)
            &&& opt_seq(warning) == join_warnings(
                hotkey_warning(settings.hotkey@),
                if ai_disabled(settings.ai_optimize.enabled, id, ai_providers@) {
                    Some(ai_off_warning())
                } else {
                    None
                },
            )
            &&& persist == sanitize_changed(settings, ai_providers@)
        }),
{
    let (input_mode, c1) = sanitize_input_mode_field(&settings.input_mode);
    let (hotkey, w1, c2) = sanitize_hotkey_field(&settings.hotkey);
    let (provider, c3) = sanitize_provider_field(&settings.provider);
    let (ds_region, c4) = sanitize_region_field(&settings.dashscope.region);
    let (qw_region, c5) = sanitize_region_field(&settings.qwen.region);
    let c6 = settings.silence_auto_stop_secs < 3 || settings.silence_auto_stop_secs > 60;
    let secs = if c6 {
        default_silence_auto_stop_secs()
    } else {
        settings.silence_auto_stop_secs
    };
    let c7 = settings.vad_sensitivity < 1 || settings.vad_sensitivity > 10;
    let vad = if c7 {
        default_vad_sensitivity()
    } else {
        settings.vad_sensitivity
    };
    let (ai, w2, c8) = sanitize_ai_fields(&settings.ai_optimize, ai_providers);
    let mut warning: Option<String> = w1;
    match w2 {
        Some(m) => append_startup_warning(&mut warning, m),
        None => {},
    }
    let ghost orig = settings;
    let mut s = settings;
    s.input_mode = input_mode;
    s.hotkey = hotkey;
    s.provider = provider;
    s.dashscope.region = ds_region;
    s.qwen.region = qw_region;
    s.silence_auto_stop_secs = secs;
    s.vad_sensitivity = vad;
    s.ai_optimize = ai;
    assert(same_untouched(s, orig));
    (s, warning, c1 || c2 || c3 || c4 || c5 || c6 || c7 || c8)
}

} // verus!
