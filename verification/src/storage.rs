//! Credential storage in the OS keyring, and the pure parts of settings,
//! statistics and transcript-history persistence.
//!
//! The JSON stores themselves are read and written by the application; this
//! module decides what is written.
use vstd::prelude::*;
use crate::ai::AiOptimizeSettings;
use crate::settings::{
    AppSettings, DashScopeProviderSettings, DoubaoProviderSettings, QwenProviderSettings,
    TranscriptRecord, UsageStats,
};
use crate::text::{owned, push_str, str_eq, views};

verus! {

/// Why a keyring operation failed.
#[derive(Debug, Clone, PartialEq, Eq)]
pub enum CredentialError {
    /// The keyring entry could not even be created (its text).
    Store(String),
    /// No credential is stored under the key.
    NoEntry,
    /// Any other keyring failure (its text).
    Other(String),
}

/// The service name under which every credential of this application is
/// stored in the OS keyring.
pub const KEYRING_SERVICE: &'static str = "com.magiccodelab.speakin";

/// A keyring answer to a read, with the password as characters.
pub open spec fn lookup_view(r: Result<String, CredentialError>) -> Result<Seq<char>, CredentialError> {
    match r {
        Ok(v) => Ok(v@),
        Err(e) => Err(e),
    }
}

/// One request made to the OS keyring: the entry it addressed (service
/// name and key), what it asked, and what the keyring answered.
pub enum KeyringCall {
    /// Read the password of the entry.
    Read { service: Seq<char>, key: Seq<char>, answer: Result<Seq<char>, CredentialError> },
    /// Store `value` as the password of the entry.
    Write { service: Seq<char>, key: Seq<char>, value: Seq<char>, answer: Result<(), CredentialError> },
    /// Delete the entry's credential.
    Delete { service: Seq<char>, key: Seq<char>, answer: Result<(), CredentialError> },
}

/// The requests this library has made to the OS keyring, in order.  The
/// keyring's contents belong to the operating system; the log records
/// which entries were asked for what, and the answers.
pub struct KeyringLog {
    pub requests: Ghost<Seq<KeyringCall>>,
}

impl KeyringLog {
    /// A log with no requests yet.
    pub fn new() -> (l: Self)
        ensures
            l.requests@ == Seq::<KeyringCall>::empty(),
    {
        KeyringLog { requests: Ghost(Seq::empty()) }
    }
}

/// The requests made between two states of the log, when `new` extends
/// `old`.
pub open spec fn new_calls(old: KeyringLog, new: KeyringLog) -> Seq<KeyringCall> {
    new.requests@.skip(old.requests@.len() as int)
}

/// `new` is `old` with more requests after it.
pub open spec fn extends(old: KeyringLog, new: KeyringLog) -> bool {
    old.requests@.len() <= new.requests@.len() && new.requests@.take(old.requests@.len() as int)
        == old.requests@
}

/// A read of this application's credential `key`, answered `answer`.
pub open spec fn read_call(key: Seq<char>, answer: Result<Seq<char>, CredentialError>) -> KeyringCall {
    KeyringCall::Read { service: KEYRING_SERVICE@, key, answer }
}

/// What saving `value` under this application's `key` asks of the
/// keyring: an empty value deletes the credential, any other is stored.
pub open spec fn save_call(key: Seq<char>, value: Seq<char>, answer: Result<(), CredentialError>) -> KeyringCall {
    if value.len() == 0 {
        KeyringCall::Delete { service: KEYRING_SERVICE@, key, answer }
    } else {
        KeyringCall::Write { service: KEYRING_SERVICE@, key, value, answer }
    }
}

/// The answer to a read (a missing entry for any other request).
pub open spec fn read_answer(c: KeyringCall) -> Result<Seq<char>, CredentialError> {
    match c {
        KeyringCall::Read { answer, .. } => answer,
        _ => Err(CredentialError::NoEntry),
    }
}

/// The answer to a write or a deletion (success for a read).
pub open spec fn change_answer(c: KeyringCall) -> Result<(), CredentialError> {
    match c {
        KeyringCall::Write { answer, .. } => answer,
        KeyringCall::Delete { answer, .. } => answer,
        KeyringCall::Read { .. } => Ok(()),
    }
}

/// The entry a request addressed: its service name and key.
pub open spec fn call_entry(c: KeyringCall) -> (Seq<char>, Seq<char>) {
    match c {
        KeyringCall::Read { service, key, .. } => (service, key),
        KeyringCall::Write { service, key, .. } => (service, key),
        KeyringCall::Delete { service, key, .. } => (service, key),
    }
}

/// Reads the password of the keyring entry (`service`, `key`):
/// `keyring::Entry::new`, then `Entry::get_password`, with the crate's
/// `NoEntry` error told apart from the others.  Claimed: the request is
/// appended to the log with that entry and the answer returned.  What the
/// keyring answers depends on the OS store and is not claimed.
#[verifier::external_body]
fn keyring_read(log: &mut KeyringLog, service: &str, key: &str) -> (r: Result<String, CredentialError>)
    ensures
        final(log).requests@ == old(log).requests@.push(
            KeyringCall::Read { service: service@, key: key@, answer: lookup_view(r) },
        ),
{
    match keyring::Entry::new(service, key) {
        Ok(entry) => match entry.get_password() {
            Ok(v) => Ok(v),
            Err(keyring::Error::NoEntry) => Err(CredentialError::NoEntry),
            Err(e) => Err(CredentialError::Other(e.to_string())),
        },
        Err(e) => Err(CredentialError::Store(e.to_string())),
    }
}

/// Stores `value` as the password of the keyring entry (`service`, `key`):
/// `keyring::Entry::new`, then `Entry::set_password`.  Claimed: the request
/// is appended to the log with that entry, the value and the answer
/// returned; the answer itself is not claimed.
#[verifier::external_body]
fn keyring_write(log: &mut KeyringLog, service: &str, key: &str, value: &str) -> (r: Result<(), CredentialError>)
    ensures
        final(log).requests@ == old(log).requests@.push(
            KeyringCall::Write { service: service@, key: key@, value: value@, answer: r },
        ),
{
    match keyring::Entry::new(service, key) {
        Ok(entry) => match entry.set_password(value) {
            Ok(()) => Ok(()),
            Err(keyring::Error::NoEntry) => Err(CredentialError::NoEntry),
            Err(e) => Err(CredentialError::Other(e.to_string())),
        },
        Err(e) => Err(CredentialError::Store(e.to_string())),
    }
}

/// Deletes the credential of the keyring entry (`service`, `key`):
/// `keyring::Entry::new`, then `Entry::delete_credential`.  Claimed: the
/// request is appended to the log with that entry and the answer returned;
/// the answer itself is not claimed.
#[verifier::external_body]
fn keyring_remove(log: &mut KeyringLog, service: &str, key: &str) -> (r: Result<(), CredentialError>)
    ensures
        final(log).requests@ == old(log).requests@.push(
            KeyringCall::Delete { service: service@, key: key@, answer: r },
        ),
{
    match keyring::Entry::new(service, key) {
        Ok(entry) => match entry.delete_credential() {
            Ok(()) => Ok(()),
            Err(keyring::Error::NoEntry) => Err(CredentialError::NoEntry),
            Err(e) => Err(CredentialError::Other(e.to_string())),
        },
        Err(e) => Err(CredentialError::Store(e.to_string())),
    }
}

/// Reads this application's credential `key`: the entry's password, or
/// why there is none.
pub fn load_credential(log: &mut KeyringLog, key: &str) -> (r: Result<String, CredentialError>)
    ensures
        final(log).requests@ == old(log).requests@.push(read_call(key@, lookup_view(r))),
{
    keyring_read(log, KEYRING_SERVICE, key)
}

/// Stores `value` as this application's credential `key`.
fn keyring_set(log: &mut KeyringLog, key: &str, value: &str) -> (r: Result<(), CredentialError>)
    ensures
        final(log).requests@ == old(log).requests@.push(
            KeyringCall::Write { service: KEYRING_SERVICE@, key: key@, value: value@, answer: r },
        ),
{
    keyring_write(log, KEYRING_SERVICE, key, value)
}

/// Deletes this application's credential `key`.
fn keyring_delete(log: &mut KeyringLog, key: &str) -> (r: Result<(), CredentialError>)
    ensures
        final(log).requests@ == old(log).requests@.push(
            KeyringCall::Delete { service: KEYRING_SERVICE@, key: key@, answer: r },
        ),
{
    keyring_remove(log, KEYRING_SERVICE, key)
}

/// What `save_credential` reports, given whether the value was empty (so a
/// deletion was attempted) and what the keyring answered.
pub open spec fn save_outcome_spec(value_empty: bool, outcome: Result<(), CredentialError>) -> Result<(), Seq<char>> {
    match outcome {
        Ok(()) => Ok(()),
        Err(CredentialError::Store(e)) => Err("凭据存储错误: "@ + e@),
        Err(CredentialError::NoEntry) => if value_empty {
            Ok(())
        } else {
            Err("保存凭据失败: "@ + "No matching entry found in secure storage"@)
        },
        Err(CredentialError::Other(e)) => if value_empty {
            Err("删除凭据失败: "@ + e@)
        } else {
            Err("保存凭据失败: "@ + e@)
        },
    }
}

/// Turns the keyring's answer to a save (or, for an empty value, a delete)
/// into the error text shown to the user; a missing entry is no error when
/// deleting.
pub fn save_outcome(value_empty: bool, outcome: Result<(), CredentialError>) -> (r: Result<(), String>)
    ensures
        match r {
            Ok(()) => save_outcome_spec(value_empty, outcome) == Ok::<(), Seq<char>>(()),
            Err(e) => save_outcome_spec(value_empty, outcome) == Err::<(), Seq<char>>(e@),
        },
{
    match outcome {
        Ok(()) => Ok(()),
        Err(CredentialError::Store(e)) => {
            let mut m = owned("凭据存储错误: ");
            push_str(&mut m, e.as_str());
            Err(m)
        },
        Err(CredentialError::NoEntry) => {
            if value_empty {
                Ok(())
            } else {
                let mut m = owned("保存凭据失败: ");
                push_str(&mut m, "No matching entry found in secure storage");
                Err(m)
            }
        },
        Err(CredentialError::Other(e)) => {
            let mut m = if value_empty {
                owned("删除凭据失败: ")
            } else {
                owned("保存凭据失败: ")
            };
            push_str(&mut m, e.as_str());
            Err(m)
        },
    }
}

/// What saving `value` reports when the keyring answers `o`.
pub open spec fn save_credential_spec(value: Seq<char>, o: Result<(), CredentialError>) -> Result<(), Seq<char>> {
    save_outcome_spec(value.len() == 0, o)
}

pub open spec fn unit_result_view(r: Result<(), String>) -> Result<(), Seq<char>> {
    match r {
        Ok(()) => Ok(()),
        Err(e) => Err(e@),
    }
}

/// One change to the keyring: delete the credential under a key, or store
/// a value under it.
#[derive(Debug, Clone, PartialEq, Eq)]
pub enum CredentialWrite {
    /// Delete the credential under this key.
    Delete(String),
    /// Store the value (second) under the key (first).
    Put(String, String),
}

/// `w` is the change that saving `value` under `key` makes.
pub open spec fn write_for(w: CredentialWrite, key: Seq<char>, value: Seq<char>) -> bool {
    match w {
        CredentialWrite::Delete(k) => value.len() == 0 && k@ == key,
        CredentialWrite::Put(k, v) => value.len() > 0 && k@ == key && v@ == value,
    }
}

/// Whether a change is a deletion.
pub open spec fn deletes(w: CredentialWrite) -> bool {
    w is Delete
}

/// The keyring change that saving `value` under `key` makes: an empty value
/// deletes the credential, any other value is stored.
pub fn credential_write(key: &str, value: &str) -> (w: CredentialWrite)
    ensures
        write_for(w, key@, value@),
{
    if value.is_empty() {
        CredentialWrite::Delete(owned(key))
    } else {
        CredentialWrite::Put(owned(key), owned(value))
    }
}

/// The request a change makes, answered `answer`.
pub open spec fn write_call(w: CredentialWrite, answer: Result<(), CredentialError>) -> KeyringCall {
    match w {
        CredentialWrite::Delete(k) => KeyringCall::Delete { service: KEYRING_SERVICE@, key: k@, answer },
        CredentialWrite::Put(k, v) => KeyringCall::Write { service: KEYRING_SERVICE@, key: k@, value: v@, answer },
    }
}

/// Makes the change in the keyring, under this application's service name;
/// the keyring's answer.
fn apply_write(log: &mut KeyringLog, w: &CredentialWrite) -> (r: Result<(), CredentialError>)
    ensures
        final(log).requests@ == old(log).requests@.push(write_call(*w, r)),
{
    match w {
        CredentialWrite::Delete(k) => keyring_delete(log, k.as_str()),
        CredentialWrite::Put(k, v) => keyring_set(log, k.as_str(), v.as_str()),
    }
}

/// Makes the change and reports the keyring's answer as [`save_outcome`]
/// does.
fn save_write(log: &mut KeyringLog, w: &CredentialWrite) -> (r: Result<(), String>)
    ensures
        final(log).requests@ == old(log).requests@.push(write_call(*w, change_answer(final(log).requests@.last()))),
        unit_result_view(r) == save_outcome_spec(deletes(*w), change_answer(final(log).requests@.last())),
{
    let deleting = match w {
        CredentialWrite::Delete(_) => true,
        CredentialWrite::Put(_, _) => false,
    };
    let outcome = apply_write(log, w);
    assert(change_answer(log.requests@.last()) == outcome) by {
        match *w {
            CredentialWrite::Delete(_) => {},
            CredentialWrite::Put(_, _) => {},
        }
    }
    save_outcome(deleting, outcome)
}

/// Save a credential: makes the change [`credential_write`] gives (an empty
/// value deletes the credential instead) on this application's entry
/// `key`, and reports the keyring's answer ([`save_credential_spec`]; a
/// missing entry is no error when deleting).
pub fn save_credential(log: &mut KeyringLog, key: &str, value: &str) -> (r: Result<(), String>)
    ensures
        final(log).requests@ == old(log).requests@.push(
            save_call(key@, value@, change_answer(final(log).requests@.last())),
        ),
        unit_result_view(r) == save_credential_spec(value@, change_answer(final(log).requests@.last())),
{
    let w = credential_write(key, value);
    save_write(log, &w)
}


// ── Migrating the first settings format ──

pub open spec fn opt_str(v: Option<String>) -> Option<Seq<char>> {
    match v {
        Some(s) => Some(s@),
        None => None,
    }
}

/// A stored text that is not empty, else the default.
pub open spec fn nonempty_or(v: Option<Seq<char>>, d: Seq<char>) -> Seq<char> {
    match v {
        Some(s) => if s.len() > 0 {
            s
        } else {
            d
        },
        None => d,
    }
}

/// A stored text, else the default.
pub open spec fn present_or(v: Option<Seq<char>>, d: Seq<char>) -> Seq<char> {
    match v {
        Some(s) => s,
        None => d,
    }
}

pub open spec fn bool_or(v: Option<bool>, d: bool) -> bool {
    match v {
        Some(b) => b,
        None => d,
    }
}

/// `v.clamp(lo, hi) as u8`.
pub open spec fn clamped(v: u64, lo: u8, hi: u8) -> u8 {
    if v < lo as u64 {
        lo
    } else if v > hi as u64 {
        hi
    } else {
        v as u8
    }
}

pub fn clamp_u64(v: u64, lo: u8, hi: u8) -> (r: u8)
    requires
        lo <= hi,
    ensures
        r == clamped(v, lo, hi),
{
    if v < lo as u64 {
        lo
    } else if v > hi as u64 {
        hi
    } else {
        v as u8
    }
}

/// The values of the first settings format, one store key per field, as
/// read from the store (`None` where a key is missing or of another type).
#[derive(Debug, Clone)]
pub struct LegacySettingsFields {
    pub provider: Option<String>,
    pub resource_id: Option<String>,
    pub asr_mode: Option<String>,
    pub hotkey: Option<String>,
    pub input_mode: Option<String>,
    pub device_name: Option<String>,
    pub audio_source: Option<String>,
    pub output_mode: Option<String>,
    pub mic_always_on: Option<bool>,
    pub debug_mode: Option<bool>,
    pub filler_enabled: Option<bool>,
    pub replacement_enabled: Option<bool>,
    pub replacement_ignore_case: Option<bool>,
    pub theme_color: Option<String>,
    pub recording_follows_theme: Option<bool>,
    pub show_overlay: Option<bool>,
    pub close_behavior: Option<String>,
    pub onboarding_completed: Option<bool>,
    pub copy_to_clipboard: Option<bool>,
    pub paste_restore_clipboard: Option<bool>,
    pub system_no_auto_stop: Option<bool>,
    pub esc_abort_enabled: Option<bool>,
    pub silence_auto_stop_secs: Option<u64>,
    pub vad_sensitivity: Option<u64>,
    pub dashscope_model: Option<String>,
    pub dashscope_region: Option<String>,
    pub qwen_model: Option<String>,
    pub qwen_region: Option<String>,
    pub qwen_language: Option<String>,
    pub ai_optimize_enabled: Option<bool>,
    pub ai_optimize_active_provider_id: Option<String>,
    pub ai_optimize_active_prompt_id: Option<String>,
}

/// Settings migrated from the first format: the factory settings, with
/// each stored value taken over.  Empty texts keep the default, except for
/// the device name and the AI provider and prompt ids; numbers are clamped
/// to their ranges.  Credentials never come from this format.
#[verifier::rlimit(60)]
#[verifier::spinoff_prover]
pub fn settings_from_legacy(f: &LegacySettingsFields) -> (s: AppSettings)
    ensures
        s.provider@ == nonempty_or(opt_str(f.provider), "doubao"@),
        s.doubao.resource_id@ == nonempty_or(opt_str(f.resource_id), "volc.seedasr.sauc.duration"@),
        s.doubao.asr_mode@ == nonempty_or(opt_str(f.asr_mode), "bistream"@),
        s.hotkey@ == nonempty_or(opt_str(f.hotkey), "Ctrl+Shift+V"@),
        s.input_mode@ == nonempty_or(opt_str(f.input_mode), "toggle"@),
        s.device_name@ == present_or(opt_str(f.device_name), Seq::<char>::empty()),
        s.audio_source@ == nonempty_or(opt_str(f.audio_source), "microphone"@),
        s.output_mode@ == nonempty_or(opt_str(f.output_mode), "type"@),
        s.mic_always_on == bool_or(f.mic_always_on, false),
        s.debug_mode == bool_or(f.debug_mode, false),
        s.filler_enabled == bool_or(f.filler_enabled, true),
        s.replacement_enabled == bool_or(f.replacement_enabled, false),
        s.replacement_ignore_case == bool_or(f.replacement_ignore_case, false),
        s.theme_color@ == nonempty_or(opt_str(f.theme_color), "blue"@),
        s.recording_follows_theme == bool_or(f.recording_follows_theme, true),
        s.show_overlay == bool_or(f.show_overlay, true),
        s.close_behavior@ == nonempty_or(opt_str(f.close_behavior), "ask"@),
        s.onboarding_completed == bool_or(f.onboarding_completed, false),
        s.copy_to_clipboard == bool_or(f.copy_to_clipboard, false),
        s.paste_restore_clipboard == bool_or(f.paste_restore_clipboard, true),
        s.system_no_auto_stop == bool_or(f.system_no_auto_stop, false),
        s.esc_abort_enabled == bool_or(f.esc_abort_enabled, true),
        s.silence_auto_stop_secs == match f.silence_auto_stop_secs { Some(v) => clamped(v, 3, 60), None => 6u8 },
        s.vad_sensitivity == match f.vad_sensitivity { Some(v) => clamped(v, 1, 10), None => 7u8 },
        s.dashscope.model@ == nonempty_or(opt_str(f.dashscope_model), "paraformer-realtime-v2"@),
        s.dashscope.region@ == nonempty_or(opt_str(f.dashscope_region), "beijing"@),
        s.qwen.model@ == nonempty_or(opt_str(f.qwen_model), "qwen3-asr-flash-realtime"@),
        s.qwen.region@ == nonempty_or(opt_str(f.qwen_region), "beijing"@),
        s.qwen.language@ == nonempty_or(opt_str(f.qwen_language), "zh"@),
        s.ai_optimize.enabled == bool_or(f.ai_optimize_enabled, false),
        s.ai_optimize.active_provider_id@ == present_or(opt_str(f.ai_optimize_active_provider_id), Seq::<char>::empty()),
        s.ai_optimize.active_prompt_id@ == present_or(opt_str(f.ai_optimize_active_prompt_id), Seq::<char>::empty()),
        s.doubao.app_id@.len() == 0,
        s.doubao.access_token@.len() == 0,
        s.dashscope.api_key@.len() == 0,
        s.qwen.api_key@.len() == 0,
        s.show_overlay_subtitle,
        s.ai_optimize.connect_timeout_secs == 5,
        s.ai_optimize.max_request_secs == 60,
        s.sound_preset_start@ == "default-start"@,
        s.sound_preset_stop@ == "default-stop"@,
        s.sound_preset_error@ == "default-error"@,
{
    AppSettings {
        provider: text_or(&f.provider, "doubao"),
        doubao: DoubaoProviderSettings {
            app_id: String::new(),
            access_token: String::new(),
            resource_id: text_or(&f.resource_id, "volc.seedasr.sauc.duration"),
            asr_mode: text_or(&f.asr_mode, "bistream"),
        },
        dashscope: DashScopeProviderSettings {
            api_key: String::new(),
            model: text_or(&f.dashscope_model, "paraformer-realtime-v2"),
            region: text_or(&f.dashscope_region, "beijing"),
        },
        qwen: QwenProviderSettings {
            api_key: String::new(),
            model: text_or(&f.qwen_model, "qwen3-asr-flash-realtime"),
            region: text_or(&f.qwen_region, "beijing"),
            language: text_or(&f.qwen_language, "zh"),
        },
        ai_optimize: AiOptimizeSettings {
            enabled: match f.ai_optimize_enabled { Some(b) => b, None => false },
            active_provider_id: present_text(&f.ai_optimize_active_provider_id),
            active_prompt_id: present_text(&f.ai_optimize_active_prompt_id),
            connect_timeout_secs: 5,
            max_request_secs: 60,
        },
        hotkey: text_or(&f.hotkey, "Ctrl+Shift+V"),
        input_mode: text_or(&f.input_mode, "toggle"),
        device_name: present_text(&f.device_name),
        audio_source: text_or(&f.audio_source, "microphone"),
        output_mode: text_or(&f.output_mode, "type"),
        mic_always_on: match f.mic_always_on { Some(b) => b, None => false },
        debug_mode: match f.debug_mode { Some(b) => b, None => false },
        filler_enabled: match f.filler_enabled { Some(b) => b, None => true },
        replacement_enabled: match f.replacement_enabled { Some(b) => b, None => false },
        replacement_ignore_case: match f.replacement_ignore_case { Some(b) => b, None => false },
        theme_color: text_or(&f.theme_color, "blue"),
        recording_follows_theme: match f.recording_follows_theme { Some(b) => b, None => true },
        show_overlay: match f.show_overlay { Some(b) => b, None => true },
        close_behavior: text_or(&f.close_behavior, "ask"),
        onboarding_completed: match f.onboarding_completed { Some(b) => b, None => false },
        copy_to_clipboard: match f.copy_to_clipboard { Some(b) => b, None => false },
        paste_restore_clipboard: match f.paste_restore_clipboard { Some(b) => b, None => true },
        system_no_auto_stop: match f.system_no_auto_stop { Some(b) => b, None => false },
        esc_abort_enabled: match f.esc_abort_enabled { Some(b) => b, None => true },
        silence_auto_stop_secs: match f.silence_auto_stop_secs { Some(v) => clamp_u64(v, 3, 60), None => 6u8 },
        vad_sensitivity: match f.vad_sensitivity { Some(v) => clamp_u64(v, 1, 10), None => 7u8 },
        show_overlay_subtitle: true,
        sound_preset_start: owned("default-start"),
        sound_preset_stop: owned("default-stop"),
        sound_preset_error: owned("default-error"),
    }
}

/// A stored text that is not empty, else the default.
fn text_or(v: &Option<String>, d: &str) -> (r: String)
    ensures
        r@ == nonempty_or(opt_str(*v), d@),
{
    match v {
        Some(t) => if !t.as_str().is_empty() {
            t.clone()
        } else {
            owned(d)
        },
        None => owned(d),
    }
}

/// A stored text, else empty.
fn present_text(v: &Option<String>) -> (r: String)
    ensures
        r@ == present_or(opt_str(*v), Seq::<char>::empty()),
{
    match v {
        Some(t) => t.clone(),
        None => String::new(),
    }
}

/// The statistics of the first format, one store key per counter.
#[derive(Debug, Clone, Copy)]
pub struct LegacyStatsFields {
    pub total_sessions: Option<u64>,
    pub total_recording_duration_ms: Option<u64>,
    pub total_characters: Option<u64>,
    pub total_chinese_chars: Option<u64>,
}

pub open spec fn u64_or(v: Option<u64>, d: u64) -> u64 {
    match v {
        Some(n) => n,
        None => d,
    }
}

/// Statistics migrated from the first format: each stored counter, zero
/// where missing.
pub fn stats_from_legacy(f: &LegacyStatsFields) -> (s: UsageStats)
    ensures
        s.total_sessions == u64_or(f.total_sessions, 0),
        s.total_recording_duration_ms == u64_or(f.total_recording_duration_ms, 0),
        s.total_characters == u64_or(f.total_characters, 0),
        s.total_chinese_chars == u64_or(f.total_chinese_chars, 0),
{
    let mut s = UsageStats::default();
    match f.total_sessions {
        Some(v) => s.total_sessions = v,
        None => {},
    }
    match f.total_recording_duration_ms {
        Some(v) => s.total_recording_duration_ms = v,
        None => {},
    }
    match f.total_characters {
        Some(v) => s.total_characters = v,
        None => {},
    }
    match f.total_chinese_chars {
        Some(v) => s.total_chinese_chars = v,
        None => {},
    }
    s
}

/// Migrated statistics are written in the new format only when there is
/// something to keep.
pub fn should_persist_migrated_stats(s: &UsageStats) -> (b: bool)
    ensures
        b == (s.total_sessions > 0 || s.total_characters > 0),
{
    s.total_sessions > 0 || s.total_characters > 0
}

// ── Credentials in settings ──

/// The settings hold a credential in plain text (a file written by an
/// older build).
pub fn has_plaintext_credentials(settings: &AppSettings) -> (b: bool)
    ensures
        b == (settings.doubao.app_id@.len() > 0 || settings.doubao.access_token@.len() > 0
            || settings.dashscope.api_key@.len() > 0 || settings.qwen.api_key@.len() > 0),
{
    !settings.doubao.app_id.as_str().is_empty() || !settings.doubao.access_token.as_str().is_empty()
        || !settings.dashscope.api_key.as_str().is_empty() || !settings.qwen.api_key.as_str().is_empty()
}

/// The settings with every credential removed; what the settings file
/// holds.
pub fn strip_credentials(settings: &mut AppSettings)
    ensures
        final(settings).doubao.app_id@.len() == 0,
        final(settings).doubao.access_token@.len() == 0,
        final(settings).dashscope.api_key@.len() == 0,
        final(settings).qwen.api_key@.len() == 0,
        *final(settings) == (AppSettings {
            doubao: DoubaoProviderSettings {
                app_id: final(settings).doubao.app_id,
                access_token: final(settings).doubao.access_token,
                ..old(settings).doubao
            },
            dashscope: DashScopeProviderSettings {
                api_key: final(settings).dashscope.api_key,
                ..old(settings).dashscope
            },
            qwen: QwenProviderSettings { api_key: final(settings).qwen.api_key, ..old(settings).qwen },
            ..*old(settings)
        }),
{
    settings.doubao.app_id = String::new();
    settings.doubao.access_token = String::new();
    settings.dashscope.api_key = String::new();
    settings.qwen.api_key = String::new();
}

/// A credential field after a keyring lookup: the stored value when there
/// is one; otherwise (no entry, or the lookup failed) unchanged.
pub fn apply_credential(field: &mut String, lookup: Result<String, CredentialError>)
    ensures
        final(field)@ == match lookup {
            Ok(v) => v@,
            Err(_) => old(field)@,
        },
{
    match lookup {
        Ok(v) => *field = v,
        Err(_) => {},
    }
}

/// The keyring key of each credential setting.
pub fn credential_keys() -> (k: Vec<&'static str>)
    ensures
        k@.len() == 4,
        k@[0]@ == "app_id"@,
        k@[1]@ == "access_token"@,
        k@[2]@ == "dashscope_api_key"@,
        k@[3]@ == "qwen_api_key"@,
{
    let mut k: Vec<&'static str> = Vec::new();
    k.push("app_id");
    k.push("access_token");
    k.push("dashscope_api_key");
    k.push("qwen_api_key");
    k
}

/// The keyring key of the `i`-th credential setting.
pub open spec fn credential_key(i: int) -> Seq<char> {
    if i == 0 {
        "app_id"@
    } else if i == 1 {
        "access_token"@
    } else if i == 2 {
        "dashscope_api_key"@
    } else {
        "qwen_api_key"@
    }
}

/// The value of the `i`-th credential setting, in the order of
/// [`credential_keys`].
pub open spec fn credential_value(s: AppSettings, i: int) -> Seq<char> {
    if i == 0 {
        s.doubao.app_id@
    } else if i == 1 {
        s.doubao.access_token@
    } else if i == 2 {
        s.dashscope.api_key@
    } else {
        s.qwen.api_key@
    }
}

/// A credential's text after a keyring lookup (see [`apply_credential`]).
pub open spec fn looked_up(field: Seq<char>, lookup: Result<Seq<char>, CredentialError>) -> Seq<char> {
    match lookup {
        Ok(v) => v,
        Err(_) => field,
    }
}

/// The lookups with their passwords as characters.
pub open spec fn lookup_views(ls: Seq<Result<String, CredentialError>>) -> Seq<Result<Seq<char>, CredentialError>> {
    ls.map_values(|o: Result<String, CredentialError>| lookup_view(o))
}

/// `new` is `old` with lookup `i` applied to the `i`-th credential setting
/// and nothing else changed.
pub open spec fn overlaid(old: AppSettings, new: AppSettings, lookups: Seq<Result<Seq<char>, CredentialError>>) -> bool {
    &&& forall|i: int| 0 <= i < 4 ==> #[trigger] credential_value(new, i) == looked_up(credential_value(old, i), lookups[i])
    &&& new == (AppSettings {
        doubao: DoubaoProviderSettings {
            app_id: new.doubao.app_id,
            access_token: new.doubao.access_token,
            ..old.doubao
        },
        dashscope: DashScopeProviderSettings { api_key: new.dashscope.api_key, ..old.dashscope },
        qwen: QwenProviderSettings { api_key: new.qwen.api_key, ..old.qwen },
        ..old
    })
}

/// Applies four keyring lookups, in the order of [`credential_keys`], to
/// the credential settings: each takes the value its lookup returned, or
/// stays as it was when the lookup found nothing or failed.
pub fn overlay_from_lookups(settings: &mut AppSettings, lookups: Vec<Result<String, CredentialError>>)
    requires
        lookups@.len() == 4,
    ensures
        overlaid(*old(settings), *final(settings), lookup_views(lookups@)),
{
    let ghost ls = lookups@;
    let mut rest = lookups;
    let l3 = rest.pop();
    let l2 = rest.pop();
    let l1 = rest.pop();
    let l0 = rest.pop();
    assert(l0 == Some(ls[0]) && l1 == Some(ls[1]) && l2 == Some(ls[2]) && l3 == Some(ls[3]));
    if let Some(l) = l0 {
        apply_credential(&mut settings.doubao.app_id, l);
    }
    if let Some(l) = l1 {
        apply_credential(&mut settings.doubao.access_token, l);
    }
    if let Some(l) = l2 {
        apply_credential(&mut settings.dashscope.api_key, l);
    }
    if let Some(l) = l3 {
        apply_credential(&mut settings.qwen.api_key, l);
    }
    assert(forall|i: int| 0 <= i < 4 ==> #[trigger] credential_value(*settings, i) == looked_up(credential_value(*old(settings), i), lookup_views(ls)[i]));
}

/// The answers to a sequence of reads.
pub open spec fn read_answers(cs: Seq<KeyringCall>) -> Seq<Result<Seq<char>, CredentialError>> {
    cs.map_values(|c: KeyringCall| read_answer(c))
}

/// Puts the credentials from the OS keyring into the settings; the keyring
/// is their only store.  Exactly four reads are made, of this application's
/// entries [`credential_key`] 0 to 3 in order, and their answers are
/// applied to the matching settings by [`overlay_from_lookups`]; nothing
/// else changes.
pub fn overlay_credentials(log: &mut KeyringLog, settings: &mut AppSettings)
    ensures
        extends(*old(log), *final(log)),
        new_calls(*old(log), *final(log)).len() == 4,
        forall|i: int| 0 <= i < 4 ==> #[trigger] new_calls(*old(log), *final(log))[i] == read_call(
            credential_key(i),
            read_answer(new_calls(*old(log), *final(log))[i]),
        ),
        overlaid(*old(settings), *final(settings), read_answers(new_calls(*old(log), *final(log)))),
{
    let ghost l0 = log.requests@;
    let keys = credential_keys();
    let mut lookups: Vec<Result<String, CredentialError>> = Vec::new();
    let mut i: usize = 0;
    while i < 4
        invariant
            i <= 4,
            keys@.len() == 4,
            forall|j: int| 0 <= j < 4 ==> #[trigger] keys@[j]@ == credential_key(j),
            lookups@.len() == i,
            l0 == old(log).requests@,
            log.requests@.len() == l0.len() + i,
            log.requests@.take(l0.len() as int) == l0,
            forall|j: int| 0 <= j < i ==> #[trigger] log.requests@[l0.len() + j] == read_call(
                credential_key(j),
                lookup_view(lookups@[j]),
            ),
        decreases 4 - i,
    {
        let ghost prev = log.requests@;
        let r = load_credential(log, keys[i]);
        assert(log.requests@.take(l0.len() as int) =~= prev.take(l0.len() as int));
        lookups.push(r);
        i = i + 1;
    }
    let ghost ls = lookups@;
    let ghost cs = log.requests@.skip(l0.len() as int);
    assert forall|j: int| 0 <= j < 4 implies #[trigger] cs[j] == read_call(credential_key(j), lookup_view(ls[j])) by {
        assert(cs[j] == log.requests@[l0.len() + j]);
    }
    assert(read_answers(cs) =~= lookup_views(ls));
    overlay_from_lookups(settings, lookups);
}

/// The text of the `i`-th credential setting, in the order of
/// [`credential_keys`].
pub fn credential_field(settings: &AppSettings, i: usize) -> (v: &str)
    requires
        i < 4,
    ensures
        v@ == credential_value(*settings, i as int),
{
    if i == 0 {
        settings.doubao.app_id.as_str()
    } else if i == 1 {
        settings.doubao.access_token.as_str()
    } else if i == 2 {
        settings.dashscope.api_key.as_str()
    } else {
        settings.qwen.api_key.as_str()
    }
}

/// The keyring changes that saving the settings' credentials makes, in
/// order: the `i`-th key of [`credential_keys`] with the `i`-th credential
/// setting, each as [`credential_write`] gives it.
pub fn credential_writes(settings: &AppSettings) -> (ws: Vec<CredentialWrite>)
    ensures
        ws@.len() == 4,
        forall|i: int| 0 <= i < 4 ==> write_for(#[trigger] ws@[i], credential_key(i), credential_value(*settings, i)),
{
    let keys = credential_keys();
    let mut ws: Vec<CredentialWrite> = Vec::new();
    let mut i: usize = 0;
    while i < 4
        invariant
            i <= 4,
            keys@.len() == 4,
            forall|j: int| 0 <= j < 4 ==> #[trigger] keys@[j]@ == credential_key(j),
            ws@.len() == i,
            forall|j: int| 0 <= j < i ==> write_for(#[trigger] ws@[j], credential_key(j), credential_value(*settings, j)),
        decreases 4 - i,
    {
        let w = credential_write(keys[i], credential_field(settings, i));
        ws.push(w);
        i = i + 1;
    }
    ws
}

/// The request a change makes is the one saving its value under its key
/// makes, and its answer is reported the same way.
proof fn lemma_write_call(w: CredentialWrite, key: Seq<char>, value: Seq<char>, a: Result<(), CredentialError>)
    requires
        write_for(w, key, value),
    ensures
        write_call(w, a) == save_call(key, value, a),
        save_outcome_spec(deletes(w), a) == save_credential_spec(value, a),
{
}

/// Saves the four credential settings to the keyring, in order, making the
/// changes [`credential_writes`] gives and stopping at the first failure.
/// The `i`-th request saves the `i`-th setting under the `i`-th key; every
/// request but the last succeeded; the result is what
/// [`save_credential_spec`] makes of the last answer, and is `Ok` only
/// when all four were made.
pub fn save_settings_credentials(log: &mut KeyringLog, settings: &AppSettings) -> (r: Result<(), String>)
    ensures
        extends(*old(log), *final(log)),
        ({
            let cs = new_calls(*old(log), *final(log));
            &&& 1 <= cs.len() <= 4
            &&& forall|i: int| 0 <= i < cs.len() ==> #[trigger] cs[i] == save_call(
                credential_key(i),
                credential_value(*settings, i),
                change_answer(cs[i]),
            )
            &&& forall|i: int| 0 <= i < cs.len() - 1 ==> save_credential_spec(
                credential_value(*settings, i),
                change_answer(#[trigger] cs[i]),
            ) == Ok::<(), Seq<char>>(())
            &&& unit_result_view(r) == save_credential_spec(
                credential_value(*settings, cs.len() - 1),
                change_answer(cs.last()),
            )
            &&& r is Ok ==> cs.len() == 4
        }),
{
    let ghost l0 = log.requests@;
    let writes = credential_writes(settings);
    let mut i: usize = 0;
    while i < 4
        invariant
            i <= 4,
            writes@.len() == 4,
            forall|j: int| 0 <= j < 4 ==> write_for(#[trigger] writes@[j], credential_key(j), credential_value(*settings, j)),
            l0 == old(log).requests@,
            log.requests@.len() == l0.len() + i,
            log.requests@.take(l0.len() as int) == l0,
            forall|j: int| 0 <= j < i ==> #[trigger] log.requests@[l0.len() + j] == save_call(
                credential_key(j),
                credential_value(*settings, j),
                change_answer(log.requests@[l0.len() + j]),
            ),
            forall|j: int| 0 <= j < i ==> save_credential_spec(
                credential_value(*settings, j),
                change_answer(#[trigger] log.requests@[l0.len() + j]),
            ) == Ok::<(), Seq<char>>(()),
        decreases 4 - i,
    {
        let ghost prev = log.requests@;
        let r = save_write(log, &writes[i]);
        let ghost a = change_answer(log.requests@.last());
        proof {
            let w = writes@[i as int];
            lemma_write_call(w, credential_key(i as int), credential_value(*settings, i as int), a);
            assert(log.requests@.take(l0.len() as int) =~= prev.take(l0.len() as int));
            assert(log.requests@[l0.len() + i] == log.requests@.last());
            assert(log.requests@[l0.len() + i] == save_call(
                credential_key(i as int),
                credential_value(*settings, i as int),
                a,
            ));
            assert(unit_result_view(r) == save_credential_spec(credential_value(*settings, i as int), a));
            assert forall|j: int| 0 <= j < i implies #[trigger] log.requests@[l0.len() + j] == prev[l0.len() + j] by {}
        }
        match r {
            Ok(()) => {},
            Err(e) => {
                proof {
                    let cs = log.requests@.skip(l0.len() as int);
                    assert(cs.len() == i + 1);
                    assert forall|j: int| 0 <= j <= i implies #[trigger] cs[j] == log.requests@[l0.len() + j] by {}
                    assert(cs.last() == log.requests@.last());
                }
                return Err(e);
            },
        }
        i = i + 1;
    }
    proof {
        let cs = log.requests@.skip(l0.len() as int);
        assert(cs.len() == 4);
        assert forall|j: int| 0 <= j < 4 implies #[trigger] cs[j] == log.requests@[l0.len() + j] by {}
        assert(cs.last() == cs[3]);
    }
    Ok(())
}


// ── Recent transcript records ──

/// At most this many records are kept.
pub const MAX_RECORDS: usize = 30;

/// Records older than this (7 days, in ms) are dropped.
pub const EXPIRE_MS: u64 = 604800000;

/// The oldest timestamp kept at time `now_ms`.
pub open spec fn cutoff(now_ms: u64) -> u64 {
    if now_ms >= EXPIRE_MS {
        (now_ms - EXPIRE_MS) as u64
    } else {
        0
    }
}

/// The records not older than the cutoff, in their order.
pub open spec fn fresh_records(rs: Seq<TranscriptRecord>, cut: u64) -> Seq<TranscriptRecord>
    decreases rs.len(),
{
    if rs.len() == 0 {
        Seq::empty()
    } else if rs.last().timestamp >= cut {
        fresh_records(rs.drop_last(), cut).push(rs.last())
    } else {
        fresh_records(rs.drop_last(), cut)
    }
}

/// Where a record goes in a list sorted newest first: after every record
/// at least as new.
pub open spec fn record_pos(sorted: Seq<TranscriptRecord>, t: u64) -> int
    decreases sorted.len(),
{
    if sorted.len() == 0 {
        0
    } else if sorted.last().timestamp >= t {
        sorted.len() as int
    } else {
        record_pos(sorted.drop_last(), t)
    }
}

/// Stable sort, newest first.
pub open spec fn newest_first(rs: Seq<TranscriptRecord>) -> Seq<TranscriptRecord>
    decreases rs.len(),
{
    if rs.len() == 0 {
        Seq::empty()
    } else {
        let s = newest_first(rs.drop_last());
        s.insert(record_pos(s, rs.last().timestamp), rs.last())
    }
}

/// The kept records: those of the last seven days, newest first, at most
/// `MAX_RECORDS` of them.
pub open spec fn cleaned_records(rs: Seq<TranscriptRecord>, now_ms: u64) -> Seq<TranscriptRecord> {
    let s = newest_first(fresh_records(rs, cutoff(now_ms)));
    if s.len() > MAX_RECORDS {
        s.take(MAX_RECORDS as int)
    } else {
        s
    }
}

/// A copy of a record.
pub fn copy_record(r: &TranscriptRecord) -> (c: TranscriptRecord)
    ensures
        c == *r,
{
    TranscriptRecord {
        id: r.id.clone(),
        timestamp: r.timestamp,
        original: r.original.clone(),
        final_text: r.final_text.clone(),
        optimized: match &r.optimized {
            Some(o) => Some(o.clone()),
            None => None,
        },
        duration_ms: r.duration_ms,
        status: r.status.clone(),
    }
}

fn record_pos_exec(sorted: &Vec<TranscriptRecord>, t: u64) -> (p: usize)
    ensures
        p == record_pos(sorted@, t),
{
    let mut j = sorted.len();
    assert(sorted@.take(j as int) =~= sorted@);
    while j > 0
        invariant
            j <= sorted@.len(),
            record_pos(sorted@.take(j as int), t) == record_pos(sorted@, t),
        decreases j,
    {
        assert(sorted@.take(j as int).drop_last() =~= sorted@.take(j - 1));
        assert(sorted@.take(j as int).last() == sorted@[j - 1]);
        if sorted[j - 1].timestamp >= t {
            return j;
        }
        j = j - 1;
    }
    j
}

proof fn lemma_newest_first_len(rs: Seq<TranscriptRecord>)
    ensures
        newest_first(rs).len() == rs.len(),
    decreases rs.len(),
{
    if rs.len() > 0 {
        lemma_newest_first_len(rs.drop_last());
        lemma_record_pos_bounds(newest_first(rs.drop_last()), rs.last().timestamp);
    }
}

proof fn lemma_record_pos_bounds(s: Seq<TranscriptRecord>, t: u64)
    ensures
        0 <= record_pos(s, t) <= s.len(),
    decreases s.len(),
{
    if s.len() > 0 {
        lemma_record_pos_bounds(s.drop_last(), t);
    }
}

/// Removes expired records, sorts newest first and keeps the newest
/// `MAX_RECORDS`.  Returns whether any record was removed.
pub fn cleanup_records(records: &mut Vec<TranscriptRecord>, now_ms: u64) -> (changed: bool)
    ensures
        final(records)@ == cleaned_records(old(records)@, now_ms),
        changed == (final(records)@.len() != old(records)@.len()),
{
    let cut = if now_ms >= EXPIRE_MS {
        now_ms - EXPIRE_MS
    } else {
        0
    };
    let before = records.len();
    let mut fresh: Vec<TranscriptRecord> = Vec::new();
    let mut i: usize = 0;
    while i < records.len()
        invariant
            i <= records@.len(),
            fresh@ == fresh_records(records@.take(i as int), cut),
        decreases records@.len() - i,
    {
        assert(records@.take((i + 1) as int).drop_last() =~= records@.take(i as int));
        if records[i].timestamp >= cut {
            fresh.push(copy_record(&records[i]));
        }
        i = i + 1;
    }
    assert(records@.take(i as int) =~= records@);
    let mut sorted: Vec<TranscriptRecord> = Vec::new();
    let mut k: usize = 0;
    while k < fresh.len()
        invariant
            k <= fresh@.len(),
            sorted@ == newest_first(fresh@.take(k as int)),
        decreases fresh@.len() - k,
    {
        assert(fresh@.take((k + 1) as int).drop_last() =~= fresh@.take(k as int));
        let r = copy_record(&fresh[k]);
        let p = record_pos_exec(&sorted, r.timestamp);
        proof {
            lemma_newest_first_len(fresh@.take(k as int));
            lemma_record_pos_bounds(sorted@, r.timestamp);
        }
        sorted.insert(p, r);
        k = k + 1;
    }
    assert(fresh@.take(k as int) =~= fresh@);
    sorted.truncate(MAX_RECORDS);
    assert(sorted@ =~= cleaned_records(old(records)@, now_ms));
    *records = sorted;
    records.len() != before
}

/// Adds a record to the history, then cleans it up.
pub fn append_record(records: &mut Vec<TranscriptRecord>, record: TranscriptRecord, now_ms: u64)
    ensures
        final(records)@ == cleaned_records(old(records)@.push(record), now_ms),
{
    records.push(record);
    cleanup_records(records, now_ms);
}

/// The index of the first record with id `id`.
pub open spec fn first_with_id(rs: Seq<TranscriptRecord>, id: Seq<char>, i: int) -> bool {
    0 <= i < rs.len() && rs[i].id@ == id && forall|j: int| 0 <= j < i ==> (#[trigger] rs[j]).id@ != id
}

/// Stores the AI-optimized text on the first record with the given id and
/// turns its status from `"partial"` into `"done"`.  Fails when no record
/// has that id (it may have been cleaned up).
pub fn update_optimized_by_id(records: &mut Vec<TranscriptRecord>, id: &str, optimized: String) -> (r: Result<(), String>)
    ensures
        match r {
            Ok(()) => exists|i: int| {
                &&& #[trigger] first_with_id(old(records)@, id@, i)
                &&& final(records)@ == old(records)@.update(i, TranscriptRecord {
                    optimized: Some(optimized),
                    status: final(records)@[i].status,
                    ..old(records)@[i]
                })
                &&& final(records)@[i].status@ == if old(records)@[i].status@ == "partial"@ {
                    "done"@
                } else {
                    old(records)@[i].status@
                }
            },
            Err(e) => {
                &&& forall|i: int| 0 <= i < old(records)@.len() ==> (#[trigger] old(records)@[i]).id@ != id@
                &&& final(records)@ == old(records)@
                &&& e@ == "record not found: "@ + id@
            },
        },
{
    let mut i: usize = 0;
    while i < records.len()
        invariant
            i <= records@.len(),
            records@ == old(records)@,
            forall|j: int| 0 <= j < i ==> (#[trigger] records@[j]).id@ != id@,
        decreases records@.len() - i,
    {
        if str_eq(records[i].id.as_str(), id) {
            let mut rec = copy_record(&records[i]);
            rec.optimized = Some(optimized);
            if str_eq(rec.status.as_str(), "partial") {
                rec.status = owned("done");
            }
            records.set(i, rec);
            assert(first_with_id(old(records)@, id@, i as int));
            return Ok(());
        }
        i = i + 1;
    }
    let mut e = owned("record not found: ");
    push_str(&mut e, id);
    Err(e)
}

// ── Uninstall cleanup ──

/// `ai_provider_<id>` for each AI provider id.
pub open spec fn provider_keys(provider_ids: Seq<String>) -> Seq<Seq<char>> {
    provider_ids.map_values(|id: String| "ai_provider_"@ + id@)
}

/// The keyring keys removed on uninstall: the four credential keys, then
/// one per AI provider.
pub open spec fn cleanup_keys(provider_ids: Seq<String>) -> Seq<Seq<char>> {
    seq!["app_id"@, "access_token"@, "dashscope_api_key"@, "qwen_api_key"@] + provider_keys(provider_ids)
}

/// The keys [`uninstall_cleanup`] removes.
pub fn uninstall_cleanup_keys(provider_ids: &[String]) -> (k: Vec<String>)
    ensures
        views(k@) == cleanup_keys(provider_ids@),
{
    let mut k: Vec<String> = Vec::new();
    k.push(owned("app_id"));
    k.push(owned("access_token"));
    k.push(owned("dashscope_api_key"));
    k.push(owned("qwen_api_key"));
    let ghost fixed = seq!["app_id"@, "access_token"@, "dashscope_api_key"@, "qwen_api_key"@];
    assert(views(k@) =~= fixed + provider_keys(provider_ids@.take(0)));
    let mut i: usize = 0;
    while i < provider_ids.len()
        invariant
            i <= provider_ids@.len(),
            fixed == seq!["app_id"@, "access_token"@, "dashscope_api_key"@, "qwen_api_key"@],
            views(k@) == fixed + provider_keys(provider_ids@.take(i as int)),
        decreases provider_ids@.len() - i,
    {
        let mut key = owned("ai_provider_");
        push_str(&mut key, provider_ids[i].as_str());
        let ghost prev = k@;
        k.push(key);
        assert(views(k@) =~= views(prev).push(key@));
        assert(provider_keys(provider_ids@.take((i + 1) as int)) =~= provider_keys(
            provider_ids@.take(i as int),
        ).push("ai_provider_"@ + provider_ids@[i as int]@));
        i = i + 1;
        assert(views(k@) =~= fixed + provider_keys(provider_ids@.take(i as int)));
    }
    assert(provider_ids@.take(i as int) =~= provider_ids@);
    k
}

/// A deletion of this application's credential `key`, whatever the
/// keyring answered.
pub open spec fn deletes_entry(c: KeyringCall, key: Seq<char>) -> bool {
    c is Delete && call_entry(c) == (KEYRING_SERVICE@, key)
}

/// Best-effort removal of every credential this application wrote to the
/// keyring.  Exactly one deletion is requested per key of
/// [`cleanup_keys`], in that order (the four credential keys, then one per
/// AI provider id, read by the caller from the application's own provider
/// file), all under this application's service name and nothing else.
/// All failures, a missing entry included, are ignored, so uninstalling
/// never fails here.
pub fn uninstall_cleanup(log: &mut KeyringLog, provider_ids: &[String])
    ensures
        extends(*old(log), *final(log)),
        new_calls(*old(log), *final(log)).len() == cleanup_keys(provider_ids@).len(),
        forall|i: int| 0 <= i < cleanup_keys(provider_ids@).len() ==> deletes_entry(
            #[trigger] new_calls(*old(log), *final(log))[i],
            cleanup_keys(provider_ids@)[i],
        ),
{
    let ghost l0 = log.requests@;
    let keys = uninstall_cleanup_keys(provider_ids);
    let ghost ks = cleanup_keys(provider_ids@);
    let mut i: usize = 0;
    while i < keys.len()
        invariant
            i <= keys@.len(),
            views(keys@) == ks,
            ks == cleanup_keys(provider_ids@),
            l0 == old(log).requests@,
            log.requests@.len() == l0.len() + i,
            log.requests@.take(l0.len() as int) == l0,
            forall|j: int| 0 <= j < i ==> deletes_entry(#[trigger] log.requests@[l0.len() + j], ks[j]),
        decreases keys@.len() - i,
    {
        let ghost prev = log.requests@;
        let _ = keyring_delete(log, keys[i].as_str());
        assert(views(keys@)[i as int] == keys@[i as int]@);
        assert(log.requests@.take(l0.len() as int) =~= prev.take(l0.len() as int));
        assert forall|j: int| 0 <= j < i implies #[trigger] log.requests@[l0.len() + j] == prev[l0.len() + j] by {}
        i = i + 1;
    }
    proof {
        let cs = log.requests@.skip(l0.len() as int);
        assert(keys@.len() == ks.len());
        assert forall|j: int| 0 <= j < ks.len() implies deletes_entry(#[trigger] cs[j], ks[j]) by {
            assert(cs[j] == log.requests@[l0.len() + j]);
        }
    }
}


// ── Laws of the record history ──

/// Sorted newest first.
pub open spec fn sorted_newest_first(s: Seq<TranscriptRecord>) -> bool {
    forall|i: int, j: int| 0 <= i < j < s.len() ==> (#[trigger] s[i]).timestamp >= (#[trigger] s[j]).timestamp
}

/// Every record is at least as new as `cut`.
pub open spec fn all_since(s: Seq<TranscriptRecord>, cut: u64) -> bool {
    forall|i: int| 0 <= i < s.len() ==> (#[trigger] s[i]).timestamp >= cut
}

proof fn lemma_fresh_since(rs: Seq<TranscriptRecord>, cut: u64)
    ensures
        all_since(fresh_records(rs, cut), cut),
    decreases rs.len(),
{
    if rs.len() > 0 {
        lemma_fresh_since(rs.drop_last(), cut);
    }
}

proof fn lemma_record_pos(s: Seq<TranscriptRecord>, t: u64)
    requires
        sorted_newest_first(s),
    ensures
        0 <= record_pos(s, t) <= s.len(),
        forall|i: int| 0 <= i < record_pos(s, t) ==> (#[trigger] s[i]).timestamp >= t,
        forall|i: int| record_pos(s, t) <= i < s.len() ==> (#[trigger] s[i]).timestamp < t,
    decreases s.len(),
{
    if s.len() > 0 {
        let n = s.len() - 1;
        let dl = s.drop_last();
        assert(sorted_newest_first(dl)) by {
            assert forall|i: int, j: int| 0 <= i < j < dl.len() implies (#[trigger] dl[i]).timestamp
                >= (#[trigger] dl[j]).timestamp by {
                assert(dl[i] == s[i] && dl[j] == s[j]);
            }
        }
        lemma_record_pos(dl, t);
        if s[n].timestamp >= t {
            assert forall|i: int| 0 <= i < record_pos(s, t) implies (#[trigger] s[i]).timestamp >= t by {
                if i < n {
                    assert(s[i].timestamp >= s[n].timestamp);
                }
            }
        } else {
            assert forall|i: int| 0 <= i < record_pos(s, t) implies (#[trigger] s[i]).timestamp >= t by {
                assert(s[i] == dl[i]);
            }
            assert forall|i: int| record_pos(s, t) <= i < s.len() implies (#[trigger] s[i]).timestamp < t by {
                if i < n {
                    assert(s[i] == dl[i]);
                }
            }
        }
    }
}

proof fn lemma_newest_first(rs: Seq<TranscriptRecord>, cut: u64)
    requires
        all_since(rs, cut),
    ensures
        sorted_newest_first(newest_first(rs)),
        all_since(newest_first(rs), cut),
        newest_first(rs).len() == rs.len(),
    decreases rs.len(),
{
    if rs.len() > 0 {
        let dl = rs.drop_last();
        assert(all_since(dl, cut)) by {
            assert forall|i: int| 0 <= i < dl.len() implies (#[trigger] dl[i]).timestamp >= cut by {
                assert(dl[i] == rs[i]);
            }
        }
        lemma_newest_first(dl, cut);
        let s = newest_first(dl);
        let x = rs.last();
        lemma_record_pos(s, x.timestamp);
        let p = record_pos(s, x.timestamp);
        let t = s.insert(p, x);
        assert forall|i: int, j: int| 0 <= i < j < t.len() implies (#[trigger] t[i]).timestamp >= (
        #[trigger] t[j]).timestamp by {
            if j < p {
                assert(t[i] == s[i] && t[j] == s[j]);
            } else if j == p {
                assert(t[i] == s[i]);
            } else if i < p {
                assert(t[i] == s[i] && t[j] == s[j - 1]);
            } else if i == p {
                assert(t[j] == s[j - 1]);
            } else {
                assert(t[i] == s[i - 1] && t[j] == s[j - 1]);
            }
        }
        assert forall|i: int| 0 <= i < t.len() implies (#[trigger] t[i]).timestamp >= cut by {
            if i < p {
                assert(t[i] == s[i]);
            } else if i > p {
                assert(t[i] == s[i - 1]);
            }
        }
    }
}

/// After cleanup the history holds at most `MAX_RECORDS` records, all from
/// the last seven days, newest first.
pub proof fn lemma_cleaned_records(rs: Seq<TranscriptRecord>, now_ms: u64)
    ensures
        cleaned_records(rs, now_ms).len() <= MAX_RECORDS,
        sorted_newest_first(cleaned_records(rs, now_ms)),
        all_since(cleaned_records(rs, now_ms), cutoff(now_ms)),
{
    let cut = cutoff(now_ms);
    lemma_fresh_since(rs, cut);
    lemma_newest_first(fresh_records(rs, cut), cut);
    let s = newest_first(fresh_records(rs, cut));
    if s.len() > MAX_RECORDS {
        let t = s.take(MAX_RECORDS as int);
        assert forall|i: int, j: int| 0 <= i < j < t.len() implies (#[trigger] t[i]).timestamp >= (
        #[trigger] t[j]).timestamp by {
            assert(t[i] == s[i] && t[j] == s[j]);
        }
        assert forall|i: int| 0 <= i < t.len() implies (#[trigger] t[i]).timestamp >= cut by {
            assert(t[i] == s[i]);
        }
    }
}

} // verus!
