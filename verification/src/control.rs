//! Decisions around the recorder: what the global hotkey's events do, what
//! saving settings changes for a running session and the microphone, and
//! the tray menu with its actions.
use vstd::prelude::*;
use crate::ai::prompts::PromptTemplate;
use crate::ai::providers::AiProvider;
use crate::hotkey::HotkeyEvent;
use crate::settings::{has_selected_ai_provider, selected_provider_exists, AppSettings};
use crate::text::{chars_of, dec_seq, match_at, owned, push_char, push_str, starts_with, str_eq, string_from_chars, u64_to_dec};

verus! {

// ── Hotkey events ──

/// Start and toggle events closer together than this are ignored.
pub const HOTKEY_COOLDOWN_MS: u64 = 300;

/// A hold released sooner than this is a mistouch.
pub const MIN_HOLD_DURATION_MS: u64 = 300;

/// What the dispatcher remembers between hotkey events (times in ms on a
/// monotonic clock).
#[derive(Debug, Clone, Copy, PartialEq, Eq)]
pub struct HotkeyDispatcher {
    /// When the last accepted start or toggle event came.
    pub last_event_ms: Option<u64>,
    /// When the current hold started recording.
    pub hold_start_ms: Option<u64>,
}

/// What a hotkey event does.
#[derive(Debug, Clone, Copy, PartialEq, Eq)]
pub enum DispatchAction {
    Ignore,
    StartRecording,
    StopRecording,
    /// Stop, reporting the session as cancelled by a mistouch.
    CancelMistouch,
    AbortSession,
}

/// Within the cooldown of the last accepted event.
pub open spec fn in_cooldown(last: Option<u64>, now_ms: u64) -> bool {
    match last {
        Some(l) => now_ms < l + HOTKEY_COOLDOWN_MS,
        None => false,
    }
}

/// The dispatcher after an event and the event's action.
pub open spec fn dispatch_spec(d: HotkeyDispatcher, event: HotkeyEvent, now_ms: u64, is_recording: bool) -> (HotkeyDispatcher, DispatchAction) {
    match event {
        HotkeyEvent::ShortPress => if in_cooldown(d.last_event_ms, now_ms) {
            (d, DispatchAction::Ignore)
        } else {
            (
                HotkeyDispatcher { last_event_ms: Some(now_ms), ..d },
                if is_recording {
                    DispatchAction::StopRecording
                } else {
                    DispatchAction::StartRecording
                },
            )
        },
        HotkeyEvent::HoldStart => if in_cooldown(d.last_event_ms, now_ms) {
            (HotkeyDispatcher { hold_start_ms: None, ..d }, DispatchAction::Ignore)
        } else {
            (
                HotkeyDispatcher { last_event_ms: Some(now_ms), ..d },
                if is_recording {
                    DispatchAction::Ignore
                } else {
                    DispatchAction::StartRecording
                },
            )
        },
        HotkeyEvent::HoldEnd => {
            let mistouch = match d.hold_start_ms {
                Some(t) => now_ms < t + MIN_HOLD_DURATION_MS,
                None => false,
            };
            (
                HotkeyDispatcher { hold_start_ms: None, ..d },
                if mistouch {
                    DispatchAction::CancelMistouch
                } else {
                    DispatchAction::StopRecording
                },
            )
        },
        HotkeyEvent::AbortSession => (HotkeyDispatcher { hold_start_ms: None, ..d }, DispatchAction::AbortSession),
    }
}

impl HotkeyDispatcher {
    pub fn new() -> (d: Self)
        ensures
            d.last_event_ms is None,
            d.hold_start_ms is None,
    {
        HotkeyDispatcher { last_event_ms: None, hold_start_ms: None }
    }

    /// Takes a hotkey event at `now_ms`.
    pub fn on_event(&mut self, event: HotkeyEvent, now_ms: u64, is_recording: bool) -> (a: DispatchAction)
        ensures
            (*final(self), a) == dispatch_spec(*old(self), event, now_ms, is_recording),
    {
        let cooling = match self.last_event_ms {
            Some(l) => now_ms < l || now_ms - l < HOTKEY_COOLDOWN_MS,
            None => false,
        };
        match event {
            HotkeyEvent::ShortPress => {
                if cooling {
                    return DispatchAction::Ignore;
                }
                self.last_event_ms = Some(now_ms);
                if is_recording {
                    DispatchAction::StopRecording
                } else {
                    DispatchAction::StartRecording
                }
            },
            HotkeyEvent::HoldStart => {
                if cooling {
                    self.hold_start_ms = None;
                    return DispatchAction::Ignore;
                }
                self.last_event_ms = Some(now_ms);
                if is_recording {
                    DispatchAction::Ignore
                } else {
                    DispatchAction::StartRecording
                }
            },
            HotkeyEvent::HoldEnd => {
                let mistouch = match self.hold_start_ms {
                    Some(t) => now_ms < t || now_ms - t < MIN_HOLD_DURATION_MS,
                    None => false,
                };
                self.hold_start_ms = None;
                if mistouch {
                    DispatchAction::CancelMistouch
                } else {
                    DispatchAction::StopRecording
                }
            },
            HotkeyEvent::AbortSession => {
                self.hold_start_ms = None;
                DispatchAction::AbortSession
            },
        }
    }

    /// A hold started recording (successfully) at `now_ms`.
    pub fn hold_started(&mut self, now_ms: u64)
        ensures
            *final(self) == (HotkeyDispatcher { hold_start_ms: Some(now_ms), ..*old(self) }),
    {
        self.hold_start_ms = Some(now_ms);
    }
}

/// A hold released within the minimum duration after it started recording
/// cancels the session instead of transcribing it.
pub proof fn lemma_quick_release_is_mistouch(d: HotkeyDispatcher, start_ms: u64, end_ms: u64, is_recording: bool)
    requires
        start_ms <= end_ms < start_ms + MIN_HOLD_DURATION_MS,
    ensures
        dispatch_spec(
            HotkeyDispatcher { hold_start_ms: Some(start_ms), ..d },
            HotkeyEvent::HoldEnd,
            end_ms,
            is_recording,
        ).1 == DispatchAction::CancelMistouch,
{
}

/// A second toggle within the cooldown does nothing.
pub proof fn lemma_toggle_cooldown(d: HotkeyDispatcher, t1: u64, t2: u64, r1: bool, r2: bool)
    requires
        !in_cooldown(d.last_event_ms, t1),
        t1 <= t2 < t1 + HOTKEY_COOLDOWN_MS,
    ensures
        dispatch_spec(dispatch_spec(d, HotkeyEvent::ShortPress, t1, r1).0, HotkeyEvent::ShortPress, t2, r2).1
            == DispatchAction::Ignore,
{
}

// ── Saving settings ──

/// What happens to the microphone stream when settings are saved.
#[derive(Debug, Clone, PartialEq, Eq)]
pub enum MicChange {
    Keep,
    /// Open it on the device (`None`: the default device).
    Open(Option<String>),
    Close,
    /// Switch the open stream to the device.
    Switch(Option<String>),
}

/// A device setting: empty means the default device.
pub open spec fn device_arg(name: Seq<char>) -> Option<Seq<char>> {
    if name.len() == 0 {
        None
    } else {
        Some(name)
    }
}

pub open spec fn opt_view(o: Option<String>) -> Option<Seq<char>> {
    match o {
        Some(s) => Some(s@),
        None => None,
    }
}

/// What saving settings does to the running session and the microphone.
#[derive(Debug, Clone)]
pub struct SettingsChange {
    /// A recording is stopped because its hotkey or input mode changed.
    pub stop_recording: bool,
    pub mic: MicChange,
}

fn device_option(name: &String) -> (o: Option<String>)
    ensures
        opt_view(o) == device_arg(name@),
{
    if name.as_str().is_empty() {
        None
    } else {
        Some(name.clone())
    }
}

/// The effects of replacing `old` settings by `new`.  Keeping the
/// microphone open starts it when it is not open; no longer keeping it open
/// closes it unless a session records; a new device is switched to when
/// the stream is open.
pub fn settings_change(old: &AppSettings, new: &AppSettings, is_recording: bool, mic_open: bool) -> (c: SettingsChange)
    ensures
        c.stop_recording == (is_recording && (old.hotkey@ != new.hotkey@ || old.input_mode@ != new.input_mode@)),
        new.mic_always_on != old.mic_always_on ==> if new.mic_always_on {
            if !mic_open {
                c.mic matches MicChange::Open(d) && opt_view(d) == device_arg(new.device_name@)
            } else {
                c.mic == MicChange::Keep
            }
        } else {
            c.mic == if !is_recording { MicChange::Close } else { MicChange::Keep }
        },
        new.mic_always_on == old.mic_always_on ==> if new.device_name@ != old.device_name@ && mic_open {
            c.mic matches MicChange::Switch(d) && opt_view(d) == device_arg(new.device_name@)
        } else {
            c.mic == MicChange::Keep
        },
{
    let stop_recording = is_recording && (!str_eq(old.hotkey.as_str(), new.hotkey.as_str()) || !str_eq(
        old.input_mode.as_str(),
        new.input_mode.as_str(),
    ));
    let mic = if new.mic_always_on != old.mic_always_on {
        if new.mic_always_on {
            if !mic_open {
                MicChange::Open(device_option(&new.device_name))
            } else {
                MicChange::Keep
            }
        } else if !is_recording {
            MicChange::Close
        } else {
            MicChange::Keep
        }
    } else if !str_eq(new.device_name.as_str(), old.device_name.as_str()) && mic_open {
        MicChange::Switch(device_option(&new.device_name))
    } else {
        MicChange::Keep
    };
    SettingsChange { stop_recording, mic }
}


// ── Tray menu ──

/// How a menu item behaves.
#[derive(Debug, Clone, Copy, PartialEq, Eq)]
pub enum ItemKind {
    Plain,
    /// A check item, checked or not.
    Check(bool),
}

/// A menu item.
#[derive(Debug, Clone)]
pub struct TrayItem {
    pub id: String,
    pub label: String,
    pub kind: ItemKind,
    pub enabled: bool,
}

/// An entry of the tray menu.
#[derive(Debug, Clone)]
pub enum TrayEntry {
    Item(TrayItem),
    Separator,
    Submenu { id: String, label: String, items: Vec<TrayItem> },
}

fn item(id: &str, label: &str, kind: ItemKind, enabled: bool) -> (t: TrayItem)
    ensures
        t.id@ == id@,
        t.label@ == label@,
        t.kind == kind,
        t.enabled == enabled,
{
    TrayItem { id: owned(id), label: owned(label), kind, enabled }
}

/// An item is the check item `id`/`label`, enabled, checked as given.
pub open spec fn is_check(t: TrayItem, id: Seq<char>, label: Seq<char>, checked: bool) -> bool {
    t.id@ == id && t.label@ == label && t.kind == ItemKind::Check(checked) && t.enabled
}

/// An item is the plain item `id`/`label` with the given state.
pub open spec fn is_plain(t: TrayItem, id: Seq<char>, label: Seq<char>, enabled: bool) -> bool {
    t.id@ == id && t.label@ == label && t.kind == ItemKind::Plain && t.enabled == enabled
}

/// The prompt submenu's items: a disabled placeholder when there are no
/// prompts, else one check item per prompt, checked for the active one.
pub open spec fn prompt_items_ok(items: Seq<TrayItem>, prompts: Seq<PromptTemplate>, active: Seq<char>) -> bool {
    if prompts.len() == 0 {
        items.len() == 1 && is_plain(items[0], "tray_prompt_empty"@, "(无提示词)"@, false)
    } else {
        items.len() == prompts.len() && forall|i: int| 0 <= i < prompts.len() ==> is_check(
            #[trigger] items[i],
            "tray_prompt_"@ + prompts[i].id@,
            prompts[i].name@,
            active == prompts[i].id@,
        )
    }
}

/// The AI provider submenu's items, likewise.
pub open spec fn provider_items_ok(items: Seq<TrayItem>, providers: Seq<AiProvider>, active: Seq<char>) -> bool {
    if providers.len() == 0 {
        items.len() == 1 && is_plain(items[0], "tray_aiprov_empty"@, "(未配置)"@, false)
    } else {
        items.len() == providers.len() && forall|i: int| 0 <= i < providers.len() ==> is_check(
            #[trigger] items[i],
            "tray_aiprov_"@ + providers[i].id@,
            providers[i].name@,
            active == providers[i].id@,
        )
    }
}

fn prompt_items(prompts: &[PromptTemplate], active: &str) -> (v: Vec<TrayItem>)
    ensures
        prompt_items_ok(v@, prompts@, active@),
{
    let mut v: Vec<TrayItem> = Vec::new();
    if prompts.len() == 0 {
        v.push(item("tray_prompt_empty", "(无提示词)", ItemKind::Plain, false));
        return v;
    }
    let mut i: usize = 0;
    while i < prompts.len()
        invariant
            i <= prompts@.len(),
            v@.len() == i,
            forall|j: int| 0 <= j < i ==> is_check(
                #[trigger] v@[j],
                "tray_prompt_"@ + prompts@[j].id@,
                prompts@[j].name@,
                active@ == prompts@[j].id@,
            ),
        decreases prompts@.len() - i,
    {
        let mut id = owned("tray_prompt_");
        push_str(&mut id, prompts[i].id.as_str());
        let checked = str_eq(active, prompts[i].id.as_str());
        v.push(TrayItem { id, label: prompts[i].name.clone(), kind: ItemKind::Check(checked), enabled: true });
        i = i + 1;
    }
    v
}

fn provider_items(providers: &[AiProvider], active: &str) -> (v: Vec<TrayItem>)
    ensures
        provider_items_ok(v@, providers@, active@),
{
    let mut v: Vec<TrayItem> = Vec::new();
    if providers.len() == 0 {
        v.push(item("tray_aiprov_empty", "(未配置)", ItemKind::Plain, false));
        return v;
    }
    let mut i: usize = 0;
    while i < providers.len()
        invariant
            i <= providers@.len(),
            v@.len() == i,
            forall|j: int| 0 <= j < i ==> is_check(
                #[trigger] v@[j],
                "tray_aiprov_"@ + providers@[j].id@,
                providers@[j].name@,
                active@ == providers@[j].id@,
            ),
        decreases providers@.len() - i,
    {
        let mut id = owned("tray_aiprov_");
        push_str(&mut id, providers[i].id.as_str());
        let checked = str_eq(active, providers[i].id.as_str());
        v.push(TrayItem { id, label: providers[i].name.clone(), kind: ItemKind::Check(checked), enabled: true });
        i = i + 1;
    }
    v
}

/// The tray menu for the current settings, prompts and AI providers: open
/// window; AI optimization (checked when on and usable, enabled when on or
/// a provider is selected), the prompt and AI provider submenus; the
/// recognition provider, audio source and output submenus; statistics,
/// about and quit.
pub fn tray_menu(settings: &AppSettings, prompts: &[PromptTemplate], providers: &[AiProvider]) -> (m: Vec<TrayEntry>)
    ensures
        m@.len() == 13,
        m@[0] matches TrayEntry::Item(t) && is_plain(t, "tray_show"@, "打开窗口"@, true),
        m@[1] is Separator,
        m@[2] matches TrayEntry::Item(t) && t.id@ == "tray_ai"@ && t.label@ == "AI 优化"@
            && t.kind == ItemKind::Check(settings.ai_optimize.enabled && selected_provider_exists(settings.ai_optimize.active_provider_id@, providers@))
            && t.enabled == (settings.ai_optimize.enabled || selected_provider_exists(settings.ai_optimize.active_provider_id@, providers@)),
        m@[3] matches TrayEntry::Submenu { id, label, items } && id@ == "tray_prompt_sub"@ && label@ == "提示词"@
            && prompt_items_ok(items@, prompts@, settings.ai_optimize.active_prompt_id@),
        m@[4] matches TrayEntry::Submenu { id, label, items } && id@ == "tray_aiprov_sub"@ && label@ == "AI 供应商"@
            && provider_items_ok(items@, providers@, settings.ai_optimize.active_provider_id@),
        m@[5] is Separator,
        m@[6] matches TrayEntry::Submenu { id, label, items } && id@ == "tray_asr_sub"@ && label@ == "识别供应商"@
            && items@.len() == 3
            && is_check(items@[0], "tray_asr_doubao"@, "豆包"@, settings.provider@ == "doubao"@)
            && is_check(items@[1], "tray_asr_dashscope"@, "百炼"@, settings.provider@ == "dashscope"@)
            && is_check(items@[2], "tray_asr_qwen"@, "千问"@, settings.provider@ == "qwen"@),
        m@[7] matches TrayEntry::Submenu { id, label, items } && id@ == "tray_audio_sub"@ && label@ == "音频来源"@
            && items@.len() == 2
            && is_check(items@[0], "tray_audio_microphone"@, "麦克风"@, settings.audio_source@ == "microphone"@)
            && is_check(items@[1], "tray_audio_system"@, "系统声音"@, settings.audio_source@ == "system"@),
        m@[8] matches TrayEntry::Submenu { id, label, items } && id@ == "tray_output_sub"@ && label@ == "输出方式"@
            && items@.len() == 3
            && is_check(items@[0], "tray_output_type"@, "打字模拟"@, settings.output_mode@ == "type"@)
            && is_check(items@[1], "tray_output_paste"@, "粘贴输入"@, settings.output_mode@ == "paste"@)
            && is_check(items@[2], "tray_output_none"@, "仅识别"@, settings.output_mode@ == "none"@),
        m@[9] is Separator,
        m@[10] matches TrayEntry::Item(t) && is_plain(t, "tray_stats"@, "统计"@, true),
        m@[11] matches TrayEntry::Item(t) && is_plain(t, "tray_about"@, "关于 SpeakIn声入"@, true),
        m@[12] matches TrayEntry::Item(t) && is_plain(t, "tray_quit"@, "退出"@, true),
{
    let can_enable_ai = has_selected_ai_provider(settings, providers);
    let ai = &settings.ai_optimize;
    let mut m: Vec<TrayEntry> = Vec::new();
    m.push(TrayEntry::Item(item("tray_show", "打开窗口", ItemKind::Plain, true)));
    m.push(TrayEntry::Separator);
    m.push(TrayEntry::Item(item("tray_ai", "AI 优化", ItemKind::Check(ai.enabled && can_enable_ai), ai.enabled || can_enable_ai)));
    m.push(TrayEntry::Submenu {
        id: owned("tray_prompt_sub"),
        label: owned("提示词"),
        items: prompt_items(prompts, ai.active_prompt_id.as_str()),
    });
    m.push(TrayEntry::Submenu {
        id: owned("tray_aiprov_sub"),
        label: owned("AI 供应商"),
        items: provider_items(providers, ai.active_provider_id.as_str()),
    });
    m.push(TrayEntry::Separator);
    let p = settings.provider.as_str();
    let mut asr: Vec<TrayItem> = Vec::new();
    asr.push(item("tray_asr_doubao", "豆包", ItemKind::Check(str_eq(p, "doubao")), true));
    asr.push(item("tray_asr_dashscope", "百炼", ItemKind::Check(str_eq(p, "dashscope")), true));
    asr.push(item("tray_asr_qwen", "千问", ItemKind::Check(str_eq(p, "qwen")), true));
    m.push(TrayEntry::Submenu { id: owned("tray_asr_sub"), label: owned("识别供应商"), items: asr });
    let a = settings.audio_source.as_str();
    let mut audio: Vec<TrayItem> = Vec::new();
    audio.push(item("tray_audio_microphone", "麦克风", ItemKind::Check(str_eq(a, "microphone")), true));
    audio.push(item("tray_audio_system", "系统声音", ItemKind::Check(str_eq(a, "system")), true));
    m.push(TrayEntry::Submenu { id: owned("tray_audio_sub"), label: owned("音频来源"), items: audio });
    let o = settings.output_mode.as_str();
    let mut output: Vec<TrayItem> = Vec::new();
    output.push(item("tray_output_type", "打字模拟", ItemKind::Check(str_eq(o, "type")), true));
    output.push(item("tray_output_paste", "粘贴输入", ItemKind::Check(str_eq(o, "paste")), true));
    output.push(item("tray_output_none", "仅识别", ItemKind::Check(str_eq(o, "none")), true));
    m.push(TrayEntry::Submenu { id: owned("tray_output_sub"), label: owned("输出方式"), items: output });
    m.push(TrayEntry::Separator);
    m.push(TrayEntry::Item(item("tray_stats", "统计", ItemKind::Plain, true)));
    m.push(TrayEntry::Item(item("tray_about", "关于 SpeakIn声入", ItemKind::Plain, true)));
    m.push(TrayEntry::Item(item("tray_quit", "退出", ItemKind::Plain, true)));
    m
}

/// What choosing a tray menu item does.
#[derive(Debug, Clone, PartialEq, Eq)]
pub enum TrayAction {
    ShowWindow,
    /// Switch AI optimization on or off.
    ToggleAi,
    /// AI optimization cannot be switched on: no provider is selected (the
    /// window is shown with a warning).
    AiNeedsProvider,
    ShowAbout,
    ShowStats,
    Quit,
    SetProvider(String),
    SetAudioSource(String),
    SetOutputMode(String),
    SetPrompt(String),
    SetAiProvider(String),
    Nothing,
}

/// `s` with the prefix `p` removed, when it has it.
pub open spec fn strip_prefix(s: Seq<char>, p: Seq<char>) -> Option<Seq<char>> {
    if starts_with(s, p) {
        Some(s.skip(p.len() as int))
    } else {
        None
    }
}

fn strip_prefix_exec(s: &str, p: &str) -> (r: Option<String>)
    ensures
        match r {
            Some(t) => strip_prefix(s@, p@) == Some(t@),
            None => strip_prefix(s@, p@) is None,
        },
{
    let v = chars_of(s);
    let pc = chars_of(p);
    if !match_at(v.as_slice(), 0, pc.as_slice()) {
        return None;
    }
    let mut t: Vec<char> = Vec::new();
    let mut i = pc.len();
    while i < v.len()
        invariant
            pc@.len() <= i <= v@.len(),
            t@ == v@.subrange(pc@.len() as int, i as int),
        decreases v@.len() - i,
    {
        t.push(v[i]);
        i = i + 1;
        assert(t@ =~= v@.subrange(pc@.len() as int, i as int));
    }
    assert(t@ =~= v@.skip(pc@.len() as int));
    Some(string_from_chars(t.as_slice()))
}

pub open spec fn action_value(a: TrayAction) -> Option<Seq<char>> {
    match a {
        TrayAction::SetProvider(v) => Some(v@),
        TrayAction::SetAudioSource(v) => Some(v@),
        TrayAction::SetOutputMode(v) => Some(v@),
        TrayAction::SetPrompt(v) => Some(v@),
        TrayAction::SetAiProvider(v) => Some(v@),
        _ => None,
    }
}

/// A tray action with its texts as character sequences.
pub enum TrayActionView {
    ShowWindow,
    ToggleAi,
    AiNeedsProvider,
    ShowAbout,
    ShowStats,
    Quit,
    SetProvider(Seq<char>),
    SetAudioSource(Seq<char>),
    SetOutputMode(Seq<char>),
    SetPrompt(Seq<char>),
    SetAiProvider(Seq<char>),
    Nothing,
}

pub open spec fn action_view(a: TrayAction) -> TrayActionView {
    match a {
        TrayAction::ShowWindow => TrayActionView::ShowWindow,
        TrayAction::ToggleAi => TrayActionView::ToggleAi,
        TrayAction::AiNeedsProvider => TrayActionView::AiNeedsProvider,
        TrayAction::ShowAbout => TrayActionView::ShowAbout,
        TrayAction::ShowStats => TrayActionView::ShowStats,
        TrayAction::Quit => TrayActionView::Quit,
        TrayAction::SetProvider(v) => TrayActionView::SetProvider(v@),
        TrayAction::SetAudioSource(v) => TrayActionView::SetAudioSource(v@),
        TrayAction::SetOutputMode(v) => TrayActionView::SetOutputMode(v@),
        TrayAction::SetPrompt(v) => TrayActionView::SetPrompt(v@),
        TrayAction::SetAiProvider(v) => TrayActionView::SetAiProvider(v@),
        TrayAction::Nothing => TrayActionView::Nothing,
    }
}

/// The action of the menu item `id`.  Toggling AI optimization needs it
/// on already or a selected provider (`can_toggle_ai`); prompt and AI
/// provider items carry their id after the `tray_prompt_` / `tray_aiprov_`
/// prefix.
pub open spec fn tray_action_spec(id: Seq<char>, can_toggle_ai: bool) -> TrayActionView {
    if id == "tray_show"@ {
        TrayActionView::ShowWindow
    } else if id == "tray_ai"@ {
        if can_toggle_ai {
            TrayActionView::ToggleAi
        } else {
            TrayActionView::AiNeedsProvider
        }
    } else if id == "tray_about"@ {
        TrayActionView::ShowAbout
    } else if id == "tray_stats"@ {
        TrayActionView::ShowStats
    } else if id == "tray_quit"@ {
        TrayActionView::Quit
    } else if id == "tray_asr_doubao"@ {
        TrayActionView::SetProvider("doubao"@)
    } else if id == "tray_asr_dashscope"@ {
        TrayActionView::SetProvider("dashscope"@)
    } else if id == "tray_asr_qwen"@ {
        TrayActionView::SetProvider("qwen"@)
    } else if id == "tray_audio_microphone"@ {
        TrayActionView::SetAudioSource("microphone"@)
    } else if id == "tray_audio_system"@ {
        TrayActionView::SetAudioSource("system"@)
    } else if id == "tray_output_type"@ {
        TrayActionView::SetOutputMode("type"@)
    } else if id == "tray_output_paste"@ {
        TrayActionView::SetOutputMode("paste"@)
    } else if id == "tray_output_none"@ {
        TrayActionView::SetOutputMode("none"@)
    } else {
        match strip_prefix(id, "tray_prompt_"@) {
            Some(p) => TrayActionView::SetPrompt(p),
            None => match strip_prefix(id, "tray_aiprov_"@) {
                Some(p) => TrayActionView::SetAiProvider(p),
                None => TrayActionView::Nothing,
            },
        }
    }
}

/// The action of the menu item `id` with the current settings.
pub fn tray_action(id: &str, settings: &AppSettings, providers: &[AiProvider]) -> (a: TrayAction)
    ensures
        action_view(a) == tray_action_spec(
            id@,
            settings.ai_optimize.enabled || selected_provider_exists(settings.ai_optimize.active_provider_id@, providers@),
        ),
{
    if str_eq(id, "tray_show") {
        TrayAction::ShowWindow
    } else if str_eq(id, "tray_ai") {
        if settings.ai_optimize.enabled || has_selected_ai_provider(settings, providers) {
            TrayAction::ToggleAi
        } else {
            TrayAction::AiNeedsProvider
        }
    } else if str_eq(id, "tray_about") {
        TrayAction::ShowAbout
    } else if str_eq(id, "tray_stats") {
        TrayAction::ShowStats
    } else if str_eq(id, "tray_quit") {
        TrayAction::Quit
    } else if str_eq(id, "tray_asr_doubao") {
        TrayAction::SetProvider(owned("doubao"))
    } else if str_eq(id, "tray_asr_dashscope") {
        TrayAction::SetProvider(owned("dashscope"))
    } else if str_eq(id, "tray_asr_qwen") {
        TrayAction::SetProvider(owned("qwen"))
    } else if str_eq(id, "tray_audio_microphone") {
        TrayAction::SetAudioSource(owned("microphone"))
    } else if str_eq(id, "tray_audio_system") {
        TrayAction::SetAudioSource(owned("system"))
    } else if str_eq(id, "tray_output_type") {
        TrayAction::SetOutputMode(owned("type"))
    } else if str_eq(id, "tray_output_paste") {
        TrayAction::SetOutputMode(owned("paste"))
    } else if str_eq(id, "tray_output_none") {
        TrayAction::SetOutputMode(owned("none"))
    } else {
        match strip_prefix_exec(id, "tray_prompt_") {
            Some(p) => TrayAction::SetPrompt(p),
            None => match strip_prefix_exec(id, "tray_aiprov_") {
                Some(p) => TrayAction::SetAiProvider(p),
                None => TrayAction::Nothing,
            },
        }
    }
}

/// Applies a tray action's setting change; returns whether settings
/// changed (then they are saved and the menu rebuilt).
pub fn apply_tray_action(settings: &mut AppSettings, action: TrayAction) -> (changed: bool)
    ensures
        changed == (action is ToggleAi || action_value(action) is Some),
        action is ToggleAi ==> final(settings).ai_optimize.enabled == !old(settings).ai_optimize.enabled,
        action is SetProvider ==> Some(final(settings).provider@) == action_value(action),
        action is SetAudioSource ==> Some(final(settings).audio_source@) == action_value(action),
        action is SetOutputMode ==> Some(final(settings).output_mode@) == action_value(action),
        action is SetPrompt ==> Some(final(settings).ai_optimize.active_prompt_id@) == action_value(action),
        action is SetAiProvider ==> Some(final(settings).ai_optimize.active_provider_id@) == action_value(action),
        !changed ==> *final(settings) == *old(settings),
{
    match action {
        TrayAction::ToggleAi => {
            settings.ai_optimize.enabled = !settings.ai_optimize.enabled;
            true
        },
        TrayAction::SetProvider(v) => {
            settings.provider = v;
            true
        },
        TrayAction::SetAudioSource(v) => {
            settings.audio_source = v;
            true
        },
        TrayAction::SetOutputMode(v) => {
            settings.output_mode = v;
            true
        },
        TrayAction::SetPrompt(v) => {
            settings.ai_optimize.active_prompt_id = v;
            true
        },
        TrayAction::SetAiProvider(v) => {
            settings.ai_optimize.active_provider_id = v;
            true
        },
        _ => false,
    }
}


// ── Log lines ──

/// `n` in decimal, padded with zeros to at least `width` digits.
pub open spec fn padded_dec(n: nat, width: nat) -> Seq<char> {
    let d = dec_seq(n);
    if d.len() >= width {
        d
    } else {
        Seq::new((width - d.len()) as nat, |i: int| '0') + d
    }
}

proof fn lemma_dec_len(n: nat)
    ensures
        dec_seq(n).len() >= 1,
    decreases n,
{
    if n >= 10 {
        lemma_dec_len(n / 10);
    }
}

fn push_padded(s: &mut String, n: u16, width: usize)
    requires
        width <= 4,
    ensures
        final(s)@ == old(s)@ + padded_dec(n as nat, width as nat),
{
    let d = u64_to_dec(n as u64);
    let len = d.as_str().unicode_len();
    let ghost s0 = s@;
    if len < width {
        let pad = width - len;
        let mut i: usize = 0;
        while i < pad
            invariant
                i <= pad,
                s@ == s0 + Seq::new(i as nat, |k: int| '0'),
            decreases pad - i,
        {
            push_char(s, '0');
            i = i + 1;
            assert(s@ =~= s0 + Seq::new(i as nat, |k: int| '0'));
        }
        push_str(s, d.as_str());
        assert(s@ =~= s0 + padded_dec(n as nat, width as nat));
    } else {
        push_str(s, d.as_str());
    }
}

/// The time stamp of a log line: `YYYY-MM-DD HH:MM:SS.mmm` from the local
/// time's fields.
pub fn log_timestamp(year: u16, month: u16, day: u16, hour: u16, minute: u16, second: u16, millis: u16) -> (t: String)
    ensures
        t@ == padded_dec(year as nat, 4) + "-"@ + padded_dec(month as nat, 2) + "-"@ + padded_dec(day as nat, 2) + " "@
            + padded_dec(hour as nat, 2) + ":"@ + padded_dec(minute as nat, 2) + ":"@ + padded_dec(second as nat, 2)
            + "."@ + padded_dec(millis as nat, 3),
{
    let mut t = String::new();
    push_padded(&mut t, year, 4);
    push_str(&mut t, "-");
    push_padded(&mut t, month, 2);
    push_str(&mut t, "-");
    push_padded(&mut t, day, 2);
    push_str(&mut t, " ");
    push_padded(&mut t, hour, 2);
    push_str(&mut t, ":");
    push_padded(&mut t, minute, 2);
    push_str(&mut t, ":");
    push_padded(&mut t, second, 2);
    push_str(&mut t, ".");
    push_padded(&mut t, millis, 3);
    t
}

/// An application event in the activity log: the message marked `[APP]`.
pub fn app_log_message(msg: &str) -> (m: String)
    ensures
        m@ == "[APP] "@ + msg@,
{
    let mut m = owned("[APP] ");
    push_str(&mut m, msg);
    m
}

/// An AI client event in the activity log, shown only in debug mode (the
/// lines may hold transcribed text and request bodies).
pub fn ai_log_message(debug_mode: bool, msg: &str) -> (m: Option<String>)
    ensures
        !debug_mode ==> m is None,
        debug_mode ==> (m matches Some(t) && t@ == "[AI] "@ + msg@),
{
    if !debug_mode {
        return None;
    }
    let mut m = owned("[AI] ");
    push_str(&mut m, msg);
    Some(m)
}

} // verus!
