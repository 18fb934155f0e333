//! Global hotkey configuration and key-event state machine.
//!
//! The keyboard hook itself (a Windows low-level hook thread) lives in the
//! application; this module holds everything it decides: which virtual-key
//! code is which key, how a hotkey string is validated and normalized, and
//! how each key press or release is consumed or turned into a
//! [`HotkeyEvent`].
use vstd::prelude::*;
use crate::text::{
    ascii_upper, chars_of, is_ws, trim_end, trim_start, is_whitespace, owned, push_str, string_from_chars, to_ascii_upper,
    trim, trim_chars, upper_chars, upper_seq,
};

verus! {

/// Keyboard key identifiers used for hotkey matching.
/// Only covers keys relevant to hotkey configuration.
#[derive(Debug, Clone, Copy, PartialEq, Eq, Hash, Structural)]
pub enum Key {
    KeyA, KeyB, KeyC, KeyD, KeyE, KeyF, KeyG, KeyH, KeyI, KeyJ, KeyK, KeyL, KeyM, KeyN, KeyO, KeyP, KeyQ, KeyR, KeyS, KeyT, KeyU, KeyV, KeyW, KeyX, KeyY, KeyZ, Num0, Num1, Num2, Num3, Num4, Num5, Num6, Num7, Num8, Num9, F1, F2, F3, F4, F5, F6, F7, F8, F9, F10, F11, F12, CapsLock, NumLock, ScrollLock, Space, Tab, Return, Escape, Backspace, Delete, Insert, Home, End, PageUp, PageDown, UpArrow, DownArrow, LeftArrow, RightArrow, PrintScreen, Pause, Kp0, Kp1, Kp2, Kp3, Kp4, Kp5, Kp6, Kp7, Kp8, Kp9, BackQuote, Minus, Equal, LeftBracket, RightBracket, BackSlash, SemiColon, Quote, Comma, Dot, Slash, ShiftLeft, ShiftRight, ControlLeft, ControlRight, Alt, AltGr, MetaLeft, MetaRight,
}

/// The virtual-key code that the keyboard hook reports for each key
/// (left/right-specific codes for modifiers).
pub open spec fn key_vk(k: Key) -> u32 {
    match k {
        Key::KeyA => 0x41,
        Key::KeyB => 0x42,
        Key::KeyC => 0x43,
        Key::KeyD => 0x44,
        Key::KeyE => 0x45,
        Key::KeyF => 0x46,
        Key::KeyG => 0x47,
        Key::KeyH => 0x48,
        Key::KeyI => 0x49,
        Key::KeyJ => 0x4A,
        Key::KeyK => 0x4B,
        Key::KeyL => 0x4C,
        Key::KeyM => 0x4D,
        Key::KeyN => 0x4E,
        Key::KeyO => 0x4F,
        Key::KeyP => 0x50,
        Key::KeyQ => 0x51,
        Key::KeyR => 0x52,
        Key::KeyS => 0x53,
        Key::KeyT => 0x54,
        Key::KeyU => 0x55,
        Key::KeyV => 0x56,
        Key::KeyW => 0x57,
        Key::KeyX => 0x58,
        Key::KeyY => 0x59,
        Key::KeyZ => 0x5A,
        Key::Num0 => 0x30,
        Key::Num1 => 0x31,
        Key::Num2 => 0x32,
        Key::Num3 => 0x33,
        Key::Num4 => 0x34,
        Key::Num5 => 0x35,
        Key::Num6 => 0x36,
        Key::Num7 => 0x37,
        Key::Num8 => 0x38,
        Key::Num9 => 0x39,
        Key::F1 => 0x70,
        Key::F2 => 0x71,
        Key::F3 => 0x72,
        Key::F4 => 0x73,
        Key::F5 => 0x74,
        Key::F6 => 0x75,
        Key::F7 => 0x76,
        Key::F8 => 0x77,
        Key::F9 => 0x78,
        Key::F10 => 0x79,
        Key::F11 => 0x7A,
        Key::F12 => 0x7B,
        Key::CapsLock => 0x14,
        Key::NumLock => 0x90,
        Key::ScrollLock => 0x91,
        Key::Space => 0x20,
        Key::Tab => 0x09,
        Key::Return => 0x0D,
        Key::Escape => 0x1B,
        Key::Backspace => 0x08,
        Key::Delete => 0x2E,
        Key::Insert => 0x2D,
        Key::Home => 0x24,
        Key::End => 0x23,
        Key::PageUp => 0x21,
        Key::PageDown => 0x22,
        Key::UpArrow => 0x26,
        Key::DownArrow => 0x28,
        Key::LeftArrow => 0x25,
        Key::RightArrow => 0x27,
        Key::PrintScreen => 0x2C,
        Key::Pause => 0x13,
        Key::Kp0 => 0x60,
        Key::Kp1 => 0x61,
        Key::Kp2 => 0x62,
        Key::Kp3 => 0x63,
        Key::Kp4 => 0x64,
        Key::Kp5 => 0x65,
        Key::Kp6 => 0x66,
        Key::Kp7 => 0x67,
        Key::Kp8 => 0x68,
        Key::Kp9 => 0x69,
        Key::BackQuote => 0xC0,
        Key::Minus => 0xBD,
        Key::Equal => 0xBB,
        Key::LeftBracket => 0xDB,
        Key::RightBracket => 0xDD,
        Key::BackSlash => 0xDC,
        Key::SemiColon => 0xBA,
        Key::Quote => 0xDE,
        Key::Comma => 0xBC,
        Key::Dot => 0xBE,
        Key::Slash => 0xBF,
        Key::ShiftLeft => 0xA0,
        Key::ShiftRight => 0xA1,
        Key::ControlLeft => 0xA2,
        Key::ControlRight => 0xA3,
        Key::Alt => 0xA4,
        Key::AltGr => 0xA5,
        Key::MetaLeft => 0x5B,
        Key::MetaRight => 0x5C,
    }
}

/// The key for a virtual-key code: the key whose code it is, or for the
/// generic modifier codes (Shift 0x10, Control 0x11, Menu 0x12) the
/// left-side modifier.
pub open spec fn vk_key(vk: u32) -> Option<Key> {
    match vk {
        0x41 => Some(Key::KeyA),
        0x42 => Some(Key::KeyB),
        0x43 => Some(Key::KeyC),
        0x44 => Some(Key::KeyD),
        0x45 => Some(Key::KeyE),
        0x46 => Some(Key::KeyF),
        0x47 => Some(Key::KeyG),
        0x48 => Some(Key::KeyH),
        0x49 => Some(Key::KeyI),
        0x4A => Some(Key::KeyJ),
        0x4B => Some(Key::KeyK),
        0x4C => Some(Key::KeyL),
        0x4D => Some(Key::KeyM),
        0x4E => Some(Key::KeyN),
        0x4F => Some(Key::KeyO),
        0x50 => Some(Key::KeyP),
        0x51 => Some(Key::KeyQ),
        0x52 => Some(Key::KeyR),
        0x53 => Some(Key::KeyS),
        0x54 => Some(Key::KeyT),
        0x55 => Some(Key::KeyU),
        0x56 => Some(Key::KeyV),
        0x57 => Some(Key::KeyW),
        0x58 => Some(Key::KeyX),
        0x59 => Some(Key::KeyY),
        0x5A => Some(Key::KeyZ),
        0x30 => Some(Key::Num0),
        0x31 => Some(Key::Num1),
        0x32 => Some(Key::Num2),
        0x33 => Some(Key::Num3),
        0x34 => Some(Key::Num4),
        0x35 => Some(Key::Num5),
        0x36 => Some(Key::Num6),
        0x37 => Some(Key::Num7),
        0x38 => Some(Key::Num8),
        0x39 => Some(Key::Num9),
        0x70 => Some(Key::F1),
        0x71 => Some(Key::F2),
        0x72 => Some(Key::F3),
        0x73 => Some(Key::F4),
        0x74 => Some(Key::F5),
        0x75 => Some(Key::F6),
        0x76 => Some(Key::F7),
        0x77 => Some(Key::F8),
        0x78 => Some(Key::F9),
        0x79 => Some(Key::F10),
        0x7A => Some(Key::F11),
        0x7B => Some(Key::F12),
        0x14 => Some(Key::CapsLock),
        0x90 => Some(Key::NumLock),
        0x91 => Some(Key::ScrollLock),
        0x20 => Some(Key::Space),
        0x09 => Some(Key::Tab),
        0x0D => Some(Key::Return),
        0x1B => Some(Key::Escape),
        0x08 => Some(Key::Backspace),
        0x2E => Some(Key::Delete),
        0x2D => Some(Key::Insert),
        0x24 => Some(Key::Home),
        0x23 => Some(Key::End),
        0x21 => Some(Key::PageUp),
        0x22 => Some(Key::PageDown),
        0x26 => Some(Key::UpArrow),
        0x28 => Some(Key::DownArrow),
        0x25 => Some(Key::LeftArrow),
        0x27 => Some(Key::RightArrow),
        0x2C => Some(Key::PrintScreen),
        0x13 => Some(Key::Pause),
        0x60 => Some(Key::Kp0),
        0x61 => Some(Key::Kp1),
        0x62 => Some(Key::Kp2),
        0x63 => Some(Key::Kp3),
        0x64 => Some(Key::Kp4),
        0x65 => Some(Key::Kp5),
        0x66 => Some(Key::Kp6),
        0x67 => Some(Key::Kp7),
        0x68 => Some(Key::Kp8),
        0x69 => Some(Key::Kp9),
        0xC0 => Some(Key::BackQuote),
        0xBD => Some(Key::Minus),
        0xBB => Some(Key::Equal),
        0xDB => Some(Key::LeftBracket),
        0xDD => Some(Key::RightBracket),
        0xDC => Some(Key::BackSlash),
        0xBA => Some(Key::SemiColon),
        0xDE => Some(Key::Quote),
        0xBC => Some(Key::Comma),
        0xBE => Some(Key::Dot),
        0xBF => Some(Key::Slash),
        0xA0 => Some(Key::ShiftLeft),
        0xA1 => Some(Key::ShiftRight),
        0xA2 => Some(Key::ControlLeft),
        0xA3 => Some(Key::ControlRight),
        0xA4 => Some(Key::Alt),
        0xA5 => Some(Key::AltGr),
        0x5B => Some(Key::MetaLeft),
        0x5C => Some(Key::MetaRight),
        0x10 => Some(Key::ShiftLeft),
        0x11 => Some(Key::ControlLeft),
        0x12 => Some(Key::Alt),
        _ => None,
    }
}

/// Map a Windows virtual key code to a [`Key`].
pub fn vk_to_key(vk: u32) -> (r: Option<Key>)
    ensures
        r == vk_key(vk),
{
    match vk {
        0x41 => Some(Key::KeyA),
        0x42 => Some(Key::KeyB),
        0x43 => Some(Key::KeyC),
        0x44 => Some(Key::KeyD),
        0x45 => Some(Key::KeyE),
        0x46 => Some(Key::KeyF),
        0x47 => Some(Key::KeyG),
        0x48 => Some(Key::KeyH),
        0x49 => Some(Key::KeyI),
        0x4A => Some(Key::KeyJ),
        0x4B => Some(Key::KeyK),
        0x4C => Some(Key::KeyL),
        0x4D => Some(Key::KeyM),
        0x4E => Some(Key::KeyN),
        0x4F => Some(Key::KeyO),
        0x50 => Some(Key::KeyP),
        0x51 => Some(Key::KeyQ),
        0x52 => Some(Key::KeyR),
        0x53 => Some(Key::KeyS),
        0x54 => Some(Key::KeyT),
        0x55 => Some(Key::KeyU),
        0x56 => Some(Key::KeyV),
        0x57 => Some(Key::KeyW),
        0x58 => Some(Key::KeyX),
        0x59 => Some(Key::KeyY),
        0x5A => Some(Key::KeyZ),
        0x30 => Some(Key::Num0),
        0x31 => Some(Key::Num1),
        0x32 => Some(Key::Num2),
        0x33 => Some(Key::Num3),
        0x34 => Some(Key::Num4),
        0x35 => Some(Key::Num5),
        0x36 => Some(Key::Num6),
        0x37 => Some(Key::Num7),
        0x38 => Some(Key::Num8),
        0x39 => Some(Key::Num9),
        0x70 => Some(Key::F1),
        0x71 => Some(Key::F2),
        0x72 => Some(Key::F3),
        0x73 => Some(Key::F4),
        0x74 => Some(Key::F5),
        0x75 => Some(Key::F6),
        0x76 => Some(Key::F7),
        0x77 => Some(Key::F8),
        0x78 => Some(Key::F9),
        0x79 => Some(Key::F10),
        0x7A => Some(Key::F11),
        0x7B => Some(Key::F12),
        0x14 => Some(Key::CapsLock),
        0x90 => Some(Key::NumLock),
        0x91 => Some(Key::ScrollLock),
        0x20 => Some(Key::Space),
        0x09 => Some(Key::Tab),
        0x0D => Some(Key::Return),
        0x1B => Some(Key::Escape),
        0x08 => Some(Key::Backspace),
        0x2E => Some(Key::Delete),
        0x2D => Some(Key::Insert),
        0x24 => Some(Key::Home),
        0x23 => Some(Key::End),
        0x21 => Some(Key::PageUp),
        0x22 => Some(Key::PageDown),
        0x26 => Some(Key::UpArrow),
        0x28 => Some(Key::DownArrow),
        0x25 => Some(Key::LeftArrow),
        0x27 => Some(Key::RightArrow),
        0x2C => Some(Key::PrintScreen),
        0x13 => Some(Key::Pause),
        0x60 => Some(Key::Kp0),
        0x61 => Some(Key::Kp1),
        0x62 => Some(Key::Kp2),
        0x63 => Some(Key::Kp3),
        0x64 => Some(Key::Kp4),
        0x65 => Some(Key::Kp5),
        0x66 => Some(Key::Kp6),
        0x67 => Some(Key::Kp7),
        0x68 => Some(Key::Kp8),
        0x69 => Some(Key::Kp9),
        0xC0 => Some(Key::BackQuote),
        0xBD => Some(Key::Minus),
        0xBB => Some(Key::Equal),
        0xDB => Some(Key::LeftBracket),
        0xDD => Some(Key::RightBracket),
        0xDC => Some(Key::BackSlash),
        0xBA => Some(Key::SemiColon),
        0xDE => Some(Key::Quote),
        0xBC => Some(Key::Comma),
        0xBE => Some(Key::Dot),
        0xBF => Some(Key::Slash),
        0xA0 => Some(Key::ShiftLeft),
        0xA1 => Some(Key::ShiftRight),
        0xA2 => Some(Key::ControlLeft),
        0xA3 => Some(Key::ControlRight),
        0xA4 => Some(Key::Alt),
        0xA5 => Some(Key::AltGr),
        0x5B => Some(Key::MetaLeft),
        0x5C => Some(Key::MetaRight),
        0x10 => Some(Key::ShiftLeft),
        0x11 => Some(Key::ControlLeft),
        0x12 => Some(Key::Alt),
        _ => None,
    }
}

/// Every key is what the hook reports for its own virtual-key code.
pub proof fn lemma_vk_roundtrip(k: Key)
    ensures
        vk_key(key_vk(k)) == Some(k),
{
}

/// A letter `A`-`Z` or a digit `0`-`9`.
pub open spec fn is_upper_alnum(ch: char) -> bool {
    ('A' <= ch <= 'Z') || ('0' <= ch <= '9')
}

/// The key of an upper-case letter or a digit: its virtual-key code is the
/// character's ASCII code.
pub open spec fn char_key(ch: char) -> Option<Key> {
    if is_upper_alnum(ch) {
        vk_key(ch as u32)
    } else {
        None
    }
}

/// The key for an upper-case letter or a digit.
pub fn key_from_char(ch: char) -> (r: Option<Key>)
    ensures
        r == char_key(ch),
{
    match ch {
        'A' => Some(Key::KeyA),
        'B' => Some(Key::KeyB),
        'C' => Some(Key::KeyC),
        'D' => Some(Key::KeyD),
        'E' => Some(Key::KeyE),
        'F' => Some(Key::KeyF),
        'G' => Some(Key::KeyG),
        'H' => Some(Key::KeyH),
        'I' => Some(Key::KeyI),
        'J' => Some(Key::KeyJ),
        'K' => Some(Key::KeyK),
        'L' => Some(Key::KeyL),
        'M' => Some(Key::KeyM),
        'N' => Some(Key::KeyN),
        'O' => Some(Key::KeyO),
        'P' => Some(Key::KeyP),
        'Q' => Some(Key::KeyQ),
        'R' => Some(Key::KeyR),
        'S' => Some(Key::KeyS),
        'T' => Some(Key::KeyT),
        'U' => Some(Key::KeyU),
        'V' => Some(Key::KeyV),
        'W' => Some(Key::KeyW),
        'X' => Some(Key::KeyX),
        'Y' => Some(Key::KeyY),
        'Z' => Some(Key::KeyZ),
        '0' => Some(Key::Num0),
        '1' => Some(Key::Num1),
        '2' => Some(Key::Num2),
        '3' => Some(Key::Num3),
        '4' => Some(Key::Num4),
        '5' => Some(Key::Num5),
        '6' => Some(Key::Num6),
        '7' => Some(Key::Num7),
        '8' => Some(Key::Num8),
        '9' => Some(Key::Num9),
        _ => None,
    }
}

// ── Key specifications ──

/// A parsed trigger key: the key, its normalized display name, and whether
/// it may be used without any modifier.
pub struct KeySpec {
    pub key: Key,
    pub normalized: String,
    pub allow_without_modifiers: bool,
}

/// A [`KeySpec`] with its name as a character sequence.
pub struct KeySpecView {
    pub key: Key,
    pub normalized: Seq<char>,
    pub allow_without_modifiers: bool,
}

impl View for KeySpec {
    type V = KeySpecView;

    open spec fn view(&self) -> KeySpecView {
        KeySpecView {
            key: self.key,
            normalized: self.normalized@,
            allow_without_modifiers: self.allow_without_modifiers,
        }
    }
}

pub open spec fn ksv(key: Key, normalized: Seq<char>, allow: bool) -> KeySpecView {
    KeySpecView { key, normalized, allow_without_modifiers: allow }
}

fn key_spec(key: Key, normalized: &str, allow_without_modifiers: bool) -> (k: KeySpec)
    ensures
        k@ == ksv(key, normalized@, allow_without_modifiers),
{
    KeySpec { key, normalized: owned(normalized), allow_without_modifiers }
}

/// Whether a character sequence equals a string literal.
fn eq_lit(v: &[char], lit: &str) -> (b: bool)
    ensures
        b == (v@ == lit@),
{
    let l = chars_of(lit);
    if v.len() != l.len() {
        return false;
    }
    let mut i: usize = 0;
    while i < v.len()
        invariant
            i <= v@.len(),
            v@.len() == l@.len(),
            l@ == lit@,
            forall|k: int| 0 <= k < i ==> v@[k] == l@[k],
        decreases v@.len() - i,
    {
        if v[i] != l[i] {
            return false;
        }
        i = i + 1;
    }
    assert(v@ =~= l@);
    true
}

/// The trigger key named by an upper-cased key name (named keys only).
pub open spec fn named_key(u: Seq<char>) -> Option<KeySpecView> {
    if u == "F1"@ {
        Some(ksv(Key::F1, "F1"@, true))
    } else if u == "F2"@ {
        Some(ksv(Key::F2, "F2"@, true))
    } else if u == "F3"@ {
        Some(ksv(Key::F3, "F3"@, true))
    } else if u == "F4"@ {
        Some(ksv(Key::F4, "F4"@, true))
    } else if u == "F5"@ {
        Some(ksv(Key::F5, "F5"@, true))
    } else if u == "F6"@ {
        Some(ksv(Key::F6, "F6"@, true))
    } else if u == "F7"@ {
        Some(ksv(Key::F7, "F7"@, true))
    } else if u == "F8"@ {
        Some(ksv(Key::F8, "F8"@, true))
    } else if u == "F9"@ {
        Some(ksv(Key::F9, "F9"@, true))
    } else if u == "F10"@ {
        Some(ksv(Key::F10, "F10"@, true))
    } else if u == "F11"@ {
        Some(ksv(Key::F11, "F11"@, true))
    } else if u == "F12"@ {
        Some(ksv(Key::F12, "F12"@, true))
    } else if u == "CAPSLOCK"@ || u == "CAPS"@ {
        Some(ksv(Key::CapsLock, "CapsLock"@, true))
    } else if u == "NUMLOCK"@ {
        Some(ksv(Key::NumLock, "NumLock"@, true))
    } else if u == "SCROLLLOCK"@ {
        Some(ksv(Key::ScrollLock, "ScrollLock"@, true))
    } else if u == "SPACE"@ {
        Some(ksv(Key::Space, "Space"@, false))
    } else if u == "TAB"@ {
        Some(ksv(Key::Tab, "Tab"@, true))
    } else if u == "ENTER"@ {
        Some(ksv(Key::Return, "Enter"@, true))
    } else if u == "ESCAPE"@ || u == "ESC"@ {
        Some(ksv(Key::Escape, "Escape"@, true))
    } else if u == "BACKSPACE"@ {
        Some(ksv(Key::Backspace, "Backspace"@, false))
    } else if u == "DELETE"@ {
        Some(ksv(Key::Delete, "Delete"@, false))
    } else if u == "INSERT"@ {
        Some(ksv(Key::Insert, "Insert"@, false))
    } else if u == "HOME"@ {
        Some(ksv(Key::Home, "Home"@, false))
    } else if u == "END"@ {
        Some(ksv(Key::End, "End"@, false))
    } else if u == "PAGEUP"@ {
        Some(ksv(Key::PageUp, "PageUp"@, false))
    } else if u == "PAGEDOWN"@ {
        Some(ksv(Key::PageDown, "PageDown"@, false))
    } else if u == "UP"@ {
        Some(ksv(Key::UpArrow, "Up"@, false))
    } else if u == "DOWN"@ {
        Some(ksv(Key::DownArrow, "Down"@, false))
    } else if u == "LEFT"@ {
        Some(ksv(Key::LeftArrow, "Left"@, false))
    } else if u == "RIGHT"@ {
        Some(ksv(Key::RightArrow, "Right"@, false))
    } else if u == "PRINTSCREEN"@ || u == "PRTSC"@ {
        Some(ksv(Key::PrintScreen, "PrintScreen"@, true))
    } else if u == "PAUSE"@ {
        Some(ksv(Key::Pause, "Pause"@, true))
    } else if u == "NUM0"@ {
        Some(ksv(Key::Kp0, "Num0"@, false))
    } else if u == "NUM1"@ {
        Some(ksv(Key::Kp1, "Num1"@, false))
    } else if u == "NUM2"@ {
        Some(ksv(Key::Kp2, "Num2"@, false))
    } else if u == "NUM3"@ {
        Some(ksv(Key::Kp3, "Num3"@, false))
    } else if u == "NUM4"@ {
        Some(ksv(Key::Kp4, "Num4"@, false))
    } else if u == "NUM5"@ {
        Some(ksv(Key::Kp5, "Num5"@, false))
    } else if u == "NUM6"@ {
        Some(ksv(Key::Kp6, "Num6"@, false))
    } else if u == "NUM7"@ {
        Some(ksv(Key::Kp7, "Num7"@, false))
    } else if u == "NUM8"@ {
        Some(ksv(Key::Kp8, "Num8"@, false))
    } else if u == "NUM9"@ {
        Some(ksv(Key::Kp9, "Num9"@, false))
    } else {
        None
    }
}

/// The trigger key named by a single ASCII character.
pub open spec fn single_char_key(ch: char) -> Option<KeySpecView> {
    if ('a' <= ch <= 'z') || ('A' <= ch <= 'Z') {
        match char_key(ascii_upper(ch)) {
            Some(k) => Some(ksv(k, seq![ascii_upper(ch)], false)),
            None => None,
        }
    } else if '0' <= ch <= '9' {
        match char_key(ch) {
            Some(k) => Some(ksv(k, seq![ch], false)),
            None => None,
        }
    }
    else if ch == '`' {
        Some(ksv(Key::BackQuote, "`"@, false))
    }
    else if ch == '-' {
        Some(ksv(Key::Minus, "-"@, false))
    }
    else if ch == '=' {
        Some(ksv(Key::Equal, "="@, false))
    }
    else if ch == '[' {
        Some(ksv(Key::LeftBracket, "["@, false))
    }
    else if ch == ']' {
        Some(ksv(Key::RightBracket, "]"@, false))
    }
    else if ch == '\\' {
        Some(ksv(Key::BackSlash, "\\"@, false))
    }
    else if ch == ';' {
        Some(ksv(Key::SemiColon, ";"@, false))
    }
    else if ch == '\'' {
        Some(ksv(Key::Quote, "\'"@, false))
    }
    else if ch == ',' {
        Some(ksv(Key::Comma, ","@, false))
    }
    else if ch == '.' {
        Some(ksv(Key::Dot, "."@, false))
    }
    else if ch == '/' {
        Some(ksv(Key::Slash, "/"@, false))
    }
    else {
        None
    }
}

/// The trigger key a key name denotes: named keys case-insensitively,
/// otherwise a single ASCII letter, digit or punctuation character.
pub open spec fn parse_key_spec_spec(name: Seq<char>) -> Option<KeySpecView> {
    let t = trim(name);
    match named_key(upper_seq(t)) {
        Some(k) => Some(k),
        None => if t.len() == 1 && (t[0] as u32) < 128 {
            single_char_key(t[0])
        } else {
            None
        },
    }
}

fn named_key_exec(u: &[char]) -> (r: Option<KeySpec>)
    ensures
        match r {
            Some(k) => named_key(u@) == Some(k@),
            None => named_key(u@) is None,
        },
{
    if eq_lit(u, "F1") {
        return Some(key_spec(Key::F1, "F1", true));
    }
    if eq_lit(u, "F2") {
        return Some(key_spec(Key::F2, "F2", true));
    }
    if eq_lit(u, "F3") {
        return Some(key_spec(Key::F3, "F3", true));
    }
    if eq_lit(u, "F4") {
        return Some(key_spec(Key::F4, "F4", true));
    }
    if eq_lit(u, "F5") {
        return Some(key_spec(Key::F5, "F5", true));
    }
    if eq_lit(u, "F6") {
        return Some(key_spec(Key::F6, "F6", true));
    }
    if eq_lit(u, "F7") {
        return Some(key_spec(Key::F7, "F7", true));
    }
    if eq_lit(u, "F8") {
        return Some(key_spec(Key::F8, "F8", true));
    }
    if eq_lit(u, "F9") {
        return Some(key_spec(Key::F9, "F9", true));
    }
    if eq_lit(u, "F10") {
        return Some(key_spec(Key::F10, "F10", true));
    }
    if eq_lit(u, "F11") {
        return Some(key_spec(Key::F11, "F11", true));
    }
    if eq_lit(u, "F12") {
        return Some(key_spec(Key::F12, "F12", true));
    }
    if eq_lit(u, "CAPSLOCK") || eq_lit(u, "CAPS") {
        return Some(key_spec(Key::CapsLock, "CapsLock", true));
    }
    if eq_lit(u, "NUMLOCK") {
        return Some(key_spec(Key::NumLock, "NumLock", true));
    }
    if eq_lit(u, "SCROLLLOCK") {
        return Some(key_spec(Key::ScrollLock, "ScrollLock", true));
    }
    if eq_lit(u, "SPACE") {
        return Some(key_spec(Key::Space, "Space", false));
    }
    if eq_lit(u, "TAB") {
        return Some(key_spec(Key::Tab, "Tab", true));
    }
    if eq_lit(u, "ENTER") {
        return Some(key_spec(Key::Return, "Enter", true));
    }
    if eq_lit(u, "ESCAPE") || eq_lit(u, "ESC") {
        return Some(key_spec(Key::Escape, "Escape", true));
    }
    if eq_lit(u, "BACKSPACE") {
        return Some(key_spec(Key::Backspace, "Backspace", false));
    }
    if eq_lit(u, "DELETE") {
        return Some(key_spec(Key::Delete, "Delete", false));
    }
    if eq_lit(u, "INSERT") {
        return Some(key_spec(Key::Insert, "Insert", false));
    }
    if eq_lit(u, "HOME") {
        return Some(key_spec(Key::Home, "Home", false));
    }
    if eq_lit(u, "END") {
        return Some(key_spec(Key::End, "End", false));
    }
    if eq_lit(u, "PAGEUP") {
        return Some(key_spec(Key::PageUp, "PageUp", false));
    }
    if eq_lit(u, "PAGEDOWN") {
        return Some(key_spec(Key::PageDown, "PageDown", false));
    }
    if eq_lit(u, "UP") {
        return Some(key_spec(Key::UpArrow, "Up", false));
    }
    if eq_lit(u, "DOWN") {
        return Some(key_spec(Key::DownArrow, "Down", false));
    }
    if eq_lit(u, "LEFT") {
        return Some(key_spec(Key::LeftArrow, "Left", false));
    }
    if eq_lit(u, "RIGHT") {
        return Some(key_spec(Key::RightArrow, "Right", false));
    }
    if eq_lit(u, "PRINTSCREEN") || eq_lit(u, "PRTSC") {
        return Some(key_spec(Key::PrintScreen, "PrintScreen", true));
    }
    if eq_lit(u, "PAUSE") {
        return Some(key_spec(Key::Pause, "Pause", true));
    }
    if eq_lit(u, "NUM0") {
        return Some(key_spec(Key::Kp0, "Num0", false));
    }
    if eq_lit(u, "NUM1") {
        return Some(key_spec(Key::Kp1, "Num1", false));
    }
    if eq_lit(u, "NUM2") {
        return Some(key_spec(Key::Kp2, "Num2", false));
    }
    if eq_lit(u, "NUM3") {
        return Some(key_spec(Key::Kp3, "Num3", false));
    }
    if eq_lit(u, "NUM4") {
        return Some(key_spec(Key::Kp4, "Num4", false));
    }
    if eq_lit(u, "NUM5") {
        return Some(key_spec(Key::Kp5, "Num5", false));
    }
    if eq_lit(u, "NUM6") {
        return Some(key_spec(Key::Kp6, "Num6", false));
    }
    if eq_lit(u, "NUM7") {
        return Some(key_spec(Key::Kp7, "Num7", false));
    }
    if eq_lit(u, "NUM8") {
        return Some(key_spec(Key::Kp8, "Num8", false));
    }
    if eq_lit(u, "NUM9") {
        return Some(key_spec(Key::Kp9, "Num9", false));
    }
    None
}

fn single_char_key_exec(ch: char) -> (r: Option<KeySpec>)
    ensures
        match r {
            Some(k) => single_char_key(ch) == Some(k@),
            None => single_char_key(ch) is None,
        },
{
    if ('a' <= ch && ch <= 'z') || ('A' <= ch && ch <= 'Z') {
        let up = to_ascii_upper(ch);
        match key_from_char(up) {
            Some(k) => {
                let mut s = String::new();
                crate::text::push_char(&mut s, up);
                assert(s@ =~= seq![up]);
                return Some(KeySpec { key: k, normalized: s, allow_without_modifiers: false });
            },
            None => return None,
        }
    }
    if '0' <= ch && ch <= '9' {
        match key_from_char(ch) {
            Some(k) => {
                let mut s = String::new();
                crate::text::push_char(&mut s, ch);
                assert(s@ =~= seq![ch]);
                return Some(KeySpec { key: k, normalized: s, allow_without_modifiers: false });
            },
            None => return None,
        }
    }
    if ch == '`' {
        return Some(key_spec(Key::BackQuote, "`", false));
    }
    if ch == '-' {
        return Some(key_spec(Key::Minus, "-", false));
    }
    if ch == '=' {
        return Some(key_spec(Key::Equal, "=", false));
    }
    if ch == '[' {
        return Some(key_spec(Key::LeftBracket, "[", false));
    }
    if ch == ']' {
        return Some(key_spec(Key::RightBracket, "]", false));
    }
    if ch == '\\' {
        return Some(key_spec(Key::BackSlash, "\\", false));
    }
    if ch == ';' {
        return Some(key_spec(Key::SemiColon, ";", false));
    }
    if ch == '\'' {
        return Some(key_spec(Key::Quote, "\'", false));
    }
    if ch == ',' {
        return Some(key_spec(Key::Comma, ",", false));
    }
    if ch == '.' {
        return Some(key_spec(Key::Dot, ".", false));
    }
    if ch == '/' {
        return Some(key_spec(Key::Slash, "/", false));
    }
    None
}

/// Parse a single key name into its trigger-key specification.
pub fn parse_key_spec(name: &str) -> (r: Option<KeySpec>)
    ensures
        match r {
            Some(k) => parse_key_spec_spec(name@) == Some(k@),
            None => parse_key_spec_spec(name@) is None,
        },
{
    let v = chars_of(name);
    let t = trim_chars(v.as_slice());
    let u = upper_chars(t.as_slice());
    match named_key_exec(u.as_slice()) {
        Some(k) => Some(k),
        None => {
            if t.len() == 1 && (t[0] as u32) < 128 {
                single_char_key_exec(t[0])
            } else {
                None
            }
        },
    }
}

// ── Hotkey strings ──

pub const MOD_CTRL: u8 = 0x01;
pub const MOD_ALT: u8 = 0x02;
pub const MOD_SHIFT: u8 = 0x04;

/// Display name of a hotkey: the modifiers present, in the order Ctrl, Alt,
/// Shift, then the trigger key name, joined by `+`.
pub open spec fn hotkey_name(modifiers: u8, key_name: Seq<char>) -> Seq<char> {
    (if modifiers & MOD_CTRL != 0 {
        "Ctrl+"@
    } else {
        Seq::<char>::empty()
    }) + (if modifiers & MOD_ALT != 0 {
        "Alt+"@
    } else {
        Seq::<char>::empty()
    }) + (if modifiers & MOD_SHIFT != 0 {
        "Shift+"@
    } else {
        Seq::<char>::empty()
    }) + key_name
}

pub fn format_hotkey_name(modifiers: u8, key_name: &str) -> (s: String)
    ensures
        s@ == hotkey_name(modifiers, key_name@),
{
    let mut s = String::new();
    if modifiers & MOD_CTRL != 0 {
        push_str(&mut s, "Ctrl+");
    }
    if modifiers & MOD_ALT != 0 {
        push_str(&mut s, "Alt+");
    }
    if modifiers & MOD_SHIFT != 0 {
        push_str(&mut s, "Shift+");
    }
    push_str(&mut s, key_name);
    assert(s@ =~= hotkey_name(modifiers, key_name@));
    s
}

/// The trimmed part, as a one-element list, unless it is empty.
pub open spec fn keep_part(cur: Seq<char>) -> Seq<Seq<char>> {
    if trim(cur).len() > 0 {
        seq![trim(cur)]
    } else {
        Seq::<Seq<char>>::empty()
    }
}

/// The `+`-separated parts of `s` (the current part begins with `cur`),
/// trimmed, without empty ones.
pub open spec fn parts_from(s: Seq<char>, cur: Seq<char>) -> Seq<Seq<char>>
    decreases s.len(),
{
    if s.len() == 0 {
        keep_part(cur)
    } else if s[0] == '+' {
        keep_part(cur) + parts_from(s.drop_first(), Seq::<char>::empty())
    } else {
        parts_from(s.drop_first(), cur.push(s[0]))
    }
}

/// The non-empty trimmed `+`-separated parts of a hotkey string.
pub open spec fn hotkey_parts(s: Seq<char>) -> Seq<Seq<char>> {
    parts_from(s, Seq::<char>::empty())
}

pub open spec fn views(v: Seq<Vec<char>>) -> Seq<Seq<char>> {
    v.map_values(|p: Vec<char>| p@)
}

fn push_kept(out: &mut Vec<Vec<char>>, cur: &Vec<char>)
    ensures
        views(final(out)@) == views(old(out)@) + keep_part(cur@),
{
    let t = trim_chars(cur.as_slice());
    let ghost o = views(out@);
    if t.len() > 0 {
        out.push(t);
        assert(views(out@) =~= o + keep_part(cur@));
    } else {
        assert(views(out@) =~= o + keep_part(cur@));
    }
}

fn split_parts(s: &[char]) -> (parts: Vec<Vec<char>>)
    ensures
        views(parts@) == hotkey_parts(s@),
{
    let mut out: Vec<Vec<char>> = Vec::new();
    let mut cur: Vec<char> = Vec::new();
    let mut i: usize = 0;
    assert(s@.skip(0) =~= s@);
    assert(views(out@) =~= Seq::<Seq<char>>::empty());
    assert(Seq::<Seq<char>>::empty() + parts_from(s@, Seq::<char>::empty()) =~= parts_from(
        s@,
        Seq::<char>::empty(),
    ));
    while i < s.len()
        invariant
            i <= s@.len(),
            views(out@) + parts_from(s@.skip(i as int), cur@) == hotkey_parts(s@),
        decreases s@.len() - i,
    {
        let ghost rest = s@.skip(i as int);
        assert(rest.drop_first() =~= s@.skip(i + 1));
        if s[i] == '+' {
            push_kept(&mut out, &cur);
            cur = Vec::new();
            assert(views(out@) + parts_from(s@.skip(i + 1), cur@) =~= hotkey_parts(s@));
        } else {
            cur.push(s[i]);
        }
        i = i + 1;
    }
    assert(s@.skip(i as int) =~= Seq::<char>::empty());
    push_kept(&mut out, &cur);
    assert(views(out@) =~= hotkey_parts(s@));
    out
}

/// The modifiers and trigger key gathered from `parts[i..]`, starting from
/// `mods` and `trig`, or the first error met.
pub open spec fn fold_parts(
    parts: Seq<Seq<char>>,
    i: int,
    mods: u8,
    trig: Option<KeySpecView>,
) -> Result<(u8, Option<KeySpecView>), Seq<char>>
    decreases parts.len() - i,
{
    if i < 0 || i >= parts.len() {
        Ok((mods, trig))
    } else {
        let u = upper_seq(parts[i]);
        if u == "CTRL"@ || u == "CONTROL"@ {
            if mods & MOD_CTRL != 0 {
                Err("快捷键中不能重复使用 Ctrl"@)
            } else {
                fold_parts(parts, i + 1, mods | MOD_CTRL, trig)
            }
        } else if u == "ALT"@ {
            if mods & MOD_ALT != 0 {
                Err("快捷键中不能重复使用 Alt"@)
            } else {
                fold_parts(parts, i + 1, mods | MOD_ALT, trig)
            }
        } else if u == "SHIFT"@ {
            if mods & MOD_SHIFT != 0 {
                Err("快捷键中不能重复使用 Shift"@)
            } else {
                fold_parts(parts, i + 1, mods | MOD_SHIFT, trig)
            }
        } else if trig is Some {
            Err("快捷键只能包含一个触发键"@)
        } else {
            match parse_key_spec_spec(parts[i]) {
                None => Err("不支持的快捷键: "@ + parts[i]),
                Some(k) => fold_parts(parts, i + 1, mods, Some(k)),
            }
        }
    }
}

/// The combinations reserved for the system or common editing actions.
pub open spec fn is_reserved_combo(n: Seq<char>) -> bool {
    ||| n == "Ctrl+C"@
    ||| n == "Ctrl+V"@
    ||| n == "Ctrl+X"@
    ||| n == "Ctrl+Z"@
    ||| n == "Ctrl+A"@
    ||| n == "Ctrl+S"@
    ||| n == "Ctrl+W"@
    ||| n == "Ctrl+T"@
    ||| n == "Ctrl+N"@
    ||| n == "Ctrl+P"@
    ||| n == "Ctrl+F"@
    ||| n == "Ctrl+H"@
    ||| n == "Alt+F4"@
    ||| n == "Alt+Tab"@
}

fn is_reserved(n: &[char]) -> (b: bool)
    ensures
        b == is_reserved_combo(n@),
{
    eq_lit(n, "Ctrl+C") || eq_lit(n, "Ctrl+V") || eq_lit(n, "Ctrl+X") || eq_lit(n, "Ctrl+Z")
        || eq_lit(n, "Ctrl+A") || eq_lit(n, "Ctrl+S") || eq_lit(n, "Ctrl+W") || eq_lit(n, "Ctrl+T")
        || eq_lit(n, "Ctrl+N") || eq_lit(n, "Ctrl+P") || eq_lit(n, "Ctrl+F") || eq_lit(n, "Ctrl+H")
        || eq_lit(n, "Alt+F4") || eq_lit(n, "Alt+Tab")
}

/// A hotkey combination: optional modifiers + a trigger key.
#[derive(Debug, Clone, Copy, PartialEq, Eq, Structural)]
pub struct HotkeyCombo {
    pub modifiers: u8,
    pub key: Key,
}

/// A hotkey string that passed validation, with its normalized name.
#[derive(Debug, Clone)]
pub struct ValidatedHotkey {
    normalized: String,
    combo: HotkeyCombo,
}

impl View for ValidatedHotkey {
    type V = (Seq<char>, HotkeyCombo);

    closed spec fn view(&self) -> (Seq<char>, HotkeyCombo) {
        (self.normalized@, self.combo)
    }
}

impl ValidatedHotkey {
    pub fn normalized(&self) -> (s: &str)
        ensures
            s@ == self@.0,
    {
        self.normalized.as_str()
    }

    pub fn combo(&self) -> (c: HotkeyCombo)
        ensures
            c == self@.1,
    {
        self.combo
    }
}

/// What `validate_hotkey` decides for a hotkey string: its normalized name
/// and combination, or the error message.
pub open spec fn validate_spec(name: Seq<char>) -> Result<(Seq<char>, HotkeyCombo), Seq<char>> {
    let parts = hotkey_parts(name);
    if parts.len() == 0 {
        Err("快捷键不能为空"@)
    } else {
        match fold_parts(parts, 0, 0, None) {
            Err(e) => Err(e),
            Ok((mods, trig)) => match trig {
                None => Err("快捷键必须包含一个触发键"@),
                Some(t) => {
                    let n = hotkey_name(mods, t.normalized);
                    if is_reserved_combo(n) {
                        Err("该快捷键与系统或常用编辑操作冲突，请更换"@)
                    } else if mods == 0 && !t.allow_without_modifiers {
                        Err("该按键单独使用会影响正常输入，请至少添加 Ctrl、Alt 或 Shift"@)
                    } else {
                        Ok((n, HotkeyCombo { modifiers: mods, key: t.key }))
                    }
                },
            },
        }
    }
}

pub open spec fn opt_view(t: Option<KeySpec>) -> Option<KeySpecView> {
    match t {
        Some(k) => Some(k@),
        None => None,
    }
}

/// Validate a hotkey string such as `" control + shift + v "` and normalize
/// it (here to `Ctrl+Shift+V`).
pub fn validate_hotkey(name: &str) -> (r: Result<ValidatedHotkey, String>)
    ensures
        match r {
            Ok(h) => validate_spec(name@) == Ok::<(Seq<char>, HotkeyCombo), Seq<char>>(h@),
            Err(e) => validate_spec(name@) == Err::<(Seq<char>, HotkeyCombo), Seq<char>>(e@),
        },
{
    let chars = chars_of(name);
    let parts = split_parts(chars.as_slice());
    if parts.len() == 0 {
        return Err(owned("快捷键不能为空"));
    }
    let ghost ps = hotkey_parts(name@);
    let mut modifiers: u8 = 0;
    let mut trigger: Option<KeySpec> = None;
    let mut i: usize = 0;
    while i < parts.len()
        invariant
            i <= parts@.len(),
            views(parts@) == ps,
            ps == hotkey_parts(name@),
            fold_parts(ps, 0, 0, None) == fold_parts(ps, i as int, modifiers, opt_view(trigger)),
        decreases parts@.len() - i,
    {
        let part = &parts[i];
        assert(part@ == ps[i as int]);
        let u = upper_chars(part.as_slice());
        if eq_lit(u.as_slice(), "CTRL") || eq_lit(u.as_slice(), "CONTROL") {
            if modifiers & MOD_CTRL != 0 {
                return Err(owned("快捷键中不能重复使用 Ctrl"));
            }
            modifiers = modifiers | MOD_CTRL;
        } else if eq_lit(u.as_slice(), "ALT") {
            if modifiers & MOD_ALT != 0 {
                return Err(owned("快捷键中不能重复使用 Alt"));
            }
            modifiers = modifiers | MOD_ALT;
        } else if eq_lit(u.as_slice(), "SHIFT") {
            if modifiers & MOD_SHIFT != 0 {
                return Err(owned("快捷键中不能重复使用 Shift"));
            }
            modifiers = modifiers | MOD_SHIFT;
        } else {
            if trigger.is_some() {
                return Err(owned("快捷键只能包含一个触发键"));
            }
            let pstr = string_from_chars(part.as_slice());
            match parse_key_spec(pstr.as_str()) {
                None => {
                    let mut msg = owned("不支持的快捷键: ");
                    push_str(&mut msg, pstr.as_str());
                    return Err(msg);
                },
                Some(k) => {
                    trigger = Some(k);
                },
            }
        }
        i = i + 1;
    }
    match trigger {
        None => Err(owned("快捷键必须包含一个触发键")),
        Some(t) => {
            let normalized = format_hotkey_name(modifiers, t.normalized.as_str());
            let nchars = chars_of(normalized.as_str());
            if is_reserved(nchars.as_slice()) {
                return Err(owned("该快捷键与系统或常用编辑操作冲突，请更换"));
            }
            if modifiers == 0 && !t.allow_without_modifiers {
                return Err(owned("该按键单独使用会影响正常输入，请至少添加 Ctrl、Alt 或 Shift"));
            }
            Ok(ValidatedHotkey { normalized, combo: HotkeyCombo { modifiers, key: t.key } })
        },
    }
}


// ── The normal form of a validated hotkey ──

/// The trigger keys that may be used without a modifier: F1–F12, the lock
/// keys, Tab, Enter, Escape, PrintScreen and Pause.
pub open spec fn standalone_key(k: Key) -> bool {
    ||| k is F1 || k is F2 || k is F3 || k is F4 || k is F5 || k is F6
    ||| k is F7 || k is F8 || k is F9 || k is F10 || k is F11 || k is F12
    ||| k is CapsLock || k is NumLock || k is ScrollLock
    ||| k is Tab || k is Return || k is Escape || k is PrintScreen || k is Pause
}

/// `part` names the trigger key `key`, and `n` is the hotkey name of the
/// modifiers `mods` followed by that key's normalized name.
pub open spec fn names_trigger(part: Seq<char>, key: Key, mods: u8, n: Seq<char>) -> bool {
    match parse_key_spec_spec(part) {
        Some(t) => t.key == key && n == hotkey_name(mods, t.normalized),
        None => false,
    }
}

/// A key name that may stand alone names a key that may stand alone.
proof fn lemma_standalone(part: Seq<char>)
    ensures
        parse_key_spec_spec(part) matches Some(t) ==> (t.allow_without_modifiers ==> standalone_key(t.key)),
{
}

/// The trigger key found while reading the parts comes from one part, and
/// the modifiers stay within Ctrl, Alt and Shift.
proof fn lemma_fold_parts(parts: Seq<Seq<char>>, i: int, mods: u8, trig: Option<KeySpecView>)
    requires
        mods < 8,
        trig matches Some(t) ==> exists|p: Seq<char>| #[trigger] parse_key_spec_spec(p) == Some(t),
    ensures
        fold_parts(parts, i, mods, trig) matches Ok((m, tr)) ==> {
            &&& m < 8
            &&& tr matches Some(t) ==> exists|p: Seq<char>| #[trigger] parse_key_spec_spec(p) == Some(t)
        },
    decreases parts.len() - i,
{
    if 0 <= i < parts.len() {
        assert((mods | 1u8) < 8 && (mods | 2u8) < 8 && (mods | 4u8) < 8) by (bit_vector)
            requires
                mods < 8,
        ;
        lemma_fold_parts(parts, i + 1, mods | MOD_CTRL, trig);
        lemma_fold_parts(parts, i + 1, mods | MOD_ALT, trig);
        lemma_fold_parts(parts, i + 1, mods | MOD_SHIFT, trig);
        match parse_key_spec_spec(parts[i]) {
            Some(k) => {
                assert(parse_key_spec_spec(parts[i]) == Some(k));
                lemma_fold_parts(parts, i + 1, mods, Some(k));
            },
            None => {},
        }
    }
}

/// Every validated hotkey is in normal form: its name is the modifiers it
/// uses among Ctrl, Alt and Shift, in that order, followed by the
/// normalized name of exactly one trigger key (the one in its combination),
/// joined by `+`; it is none of the reserved combinations; and without a
/// modifier its key is one of F1–F12, CapsLock, NumLock, ScrollLock, Tab,
/// Enter, Escape, PrintScreen or Pause.
pub proof fn lemma_validated_hotkey_normal_form(name: Seq<char>)
    ensures
        validate_spec(name) matches Ok((n, c)) ==> {
            &&& c.modifiers < 8
            &&& exists|part: Seq<char>| #[trigger] names_trigger(part, c.key, c.modifiers, n)
            &&& !is_reserved_combo(n)
            &&& c.modifiers == 0 ==> standalone_key(c.key)
        },
{
    let parts = hotkey_parts(name);
    lemma_fold_parts(parts, 0, 0, None);
    if let Ok((n, c)) = validate_spec(name) {
        if let Ok((mods, trig)) = fold_parts(parts, 0, 0, None) {
            if let Some(t) = trig {
                let p = choose|p: Seq<char>| #[trigger] parse_key_spec_spec(p) == Some(t);
                lemma_standalone(p);
                assert(names_trigger(p, c.key, c.modifiers, n));
            }
        }
    }
}

// ── Key-event state machine ──

/// Hotkey events sent to the main app logic.
#[derive(Debug, Clone, PartialEq, Eq, Structural)]
pub enum HotkeyEvent {
    /// Short press detected (toggle mode): start or stop recording
    ShortPress,
    /// Long press started (hold mode): start recording
    HoldStart,
    /// Long press ended (hold mode): stop recording
    HoldEnd,
    /// Escape pressed while a session is active: abort the current session
    AbortSession,
}

/// Input mode determines how the hotkey behaves.
#[derive(Debug, Clone, Copy, PartialEq, Eq, Structural)]
pub enum InputMode {
    Toggle,
    Hold,
}

/// Runtime state of the hotkey handler.
#[derive(Debug, Clone, Copy, PartialEq, Eq, Structural)]
pub struct HotkeyState {
    pub is_key_down: bool,
    pub input_mode: InputMode,
    pub combo: HotkeyCombo,
    /// Modifier keys currently pressed (`MOD_*` bits).
    pub active_mods: u8,
}

/// Whether a key event was consumed (hidden from other applications) and
/// which hotkey event, if any, it produced.
#[derive(Debug, Clone, PartialEq, Eq, Structural)]
pub struct ProcessResult {
    pub consumed: bool,
    pub emitted: Option<HotkeyEvent>,
}

pub open spec fn is_modifier(key: Key) -> bool {
    match key {
        Key::ShiftLeft | Key::ShiftRight | Key::ControlLeft | Key::ControlRight | Key::Alt
        | Key::AltGr | Key::MetaLeft | Key::MetaRight => true,
        _ => false,
    }
}

pub open spec fn mod_flag(key: Key) -> u8 {
    match key {
        Key::ControlLeft | Key::ControlRight => MOD_CTRL,
        Key::Alt | Key::AltGr => MOD_ALT,
        Key::ShiftLeft | Key::ShiftRight => MOD_SHIFT,
        _ => 0,
    }
}

/// Check if a Key is a modifier key.
pub fn is_modifier_key(key: &Key) -> (b: bool)
    ensures
        b == is_modifier(*key),
{
    match key {
        Key::ShiftLeft | Key::ShiftRight | Key::ControlLeft | Key::ControlRight | Key::Alt
        | Key::AltGr | Key::MetaLeft | Key::MetaRight => true,
        _ => false,
    }
}

/// Get the modifier flag for a modifier key.
pub fn modifier_flag(key: &Key) -> (f: u8)
    ensures
        f == mod_flag(*key),
{
    match key {
        Key::ControlLeft | Key::ControlRight => MOD_CTRL,
        Key::Alt | Key::AltGr => MOD_ALT,
        Key::ShiftLeft | Key::ShiftRight => MOD_SHIFT,
        _ => 0,
    }
}

/// Compare two Keys for equality.
pub fn keys_match(a: &Key, b: &Key) -> (r: bool)
    ensures
        r == (*a == *b),
{
    *a == *b
}

pub open spec fn pass_through() -> ProcessResult {
    ProcessResult { consumed: false, emitted: None }
}

/// The next state and the result of one key event.
pub open spec fn process_spec(s: HotkeyState, key: Key, is_press: bool) -> (HotkeyState, ProcessResult) {
    if is_modifier(key) {
        let mods = if is_press {
            s.active_mods | mod_flag(key)
        } else {
            s.active_mods & !mod_flag(key)
        };
        (HotkeyState { active_mods: mods, ..s }, pass_through())
    } else if key != s.combo.key {
        (s, pass_through())
    } else if is_press && s.active_mods != s.combo.modifiers {
        (s, pass_through())
    } else if !is_press && !s.is_key_down {
        (s, pass_through())
    } else if is_press {
        if s.is_key_down {
            (s, ProcessResult { consumed: true, emitted: None })
        } else {
            (
                HotkeyState { is_key_down: true, ..s },
                ProcessResult {
                    consumed: true,
                    emitted: Some(
                        match s.input_mode {
                            InputMode::Hold => HotkeyEvent::HoldStart,
                            InputMode::Toggle => HotkeyEvent::ShortPress,
                        },
                    ),
                },
            )
        }
    } else {
        (
            HotkeyState { is_key_down: false, ..s },
            ProcessResult {
                consumed: true,
                emitted: if s.input_mode == InputMode::Hold {
                    Some(HotkeyEvent::HoldEnd)
                } else {
                    None
                },
            },
        )
    }
}

/// Only the configured hotkey is taken from other applications: a key
/// event is consumed, or emits an event, only when it is the trigger key
/// (not a modifier), and a press only when the modifiers held are exactly
/// the configured ones.  A press of any other key, or of the trigger key
/// with other modifiers held, passes through and changes nothing.
pub proof fn lemma_only_the_hotkey_is_taken(s: HotkeyState, key: Key, is_press: bool)
    ensures
        ({
            let (s2, r) = process_spec(s, key, is_press);
            (r.consumed || r.emitted is Some) ==> !is_modifier(key) && key == s.combo.key
        }),
        ({
            let (s2, r) = process_spec(s, key, true);
            (r.consumed || r.emitted is Some) ==> s.active_mods == s.combo.modifiers
        }),
        !is_modifier(key) && (key != s.combo.key || s.active_mods != s.combo.modifiers) ==> process_spec(
            s,
            key,
            true,
        ) == (s, pass_through()),
        // The first press of the hotkey starts: a short press in toggle mode,
        // the start of a hold in hold mode; it is consumed and the key is down.
        !is_modifier(key) && key == s.combo.key && s.active_mods == s.combo.modifiers && !s.is_key_down
            ==> process_spec(s, key, true) == (
            HotkeyState { is_key_down: true, ..s },
            ProcessResult {
                consumed: true,
                emitted: Some(
                    if s.input_mode == InputMode::Hold {
                        HotkeyEvent::HoldStart
                    } else {
                        HotkeyEvent::ShortPress
                    },
                ),
            },
        ),
        // Auto-repeat presses while the key is down are consumed silently.
        !is_modifier(key) && key == s.combo.key && s.active_mods == s.combo.modifiers && s.is_key_down
            ==> process_spec(s, key, true) == (s, ProcessResult { consumed: true, emitted: None }),
        // Releasing the held trigger key is consumed; it ends a hold in hold
        // mode and emits nothing in toggle mode.
        !is_modifier(key) && key == s.combo.key && s.is_key_down ==> process_spec(s, key, false) == (
            HotkeyState { is_key_down: false, ..s },
            ProcessResult {
                consumed: true,
                emitted: if s.input_mode == InputMode::Hold {
                    Some(HotkeyEvent::HoldEnd)
                } else {
                    None
                },
            },
        ),
        // A release of a key that is not down passes through.
        !is_modifier(key) && !s.is_key_down ==> process_spec(s, key, false) == (s, pass_through()),
{
}

/// Process one key press or release: modifiers update the pressed-modifier
/// set, the trigger key (with exactly the configured modifiers at press time)
/// is consumed and may emit an event, everything else passes through.
pub fn process_key_event(state: &mut HotkeyState, key: Key, is_press: bool) -> (r: ProcessResult)
    ensures
        (*final(state), r) == process_spec(*old(state), key, is_press),
{
    if is_modifier_key(&key) {
        let flag = modifier_flag(&key);
        if is_press {
            state.active_mods = state.active_mods | flag;
        } else {
            state.active_mods = state.active_mods & !flag;
        }
        return ProcessResult { consumed: false, emitted: None };
    }
    if !keys_match(&key, &state.combo.key) {
        return ProcessResult { consumed: false, emitted: None };
    }
    if is_press && state.active_mods != state.combo.modifiers {
        return ProcessResult { consumed: false, emitted: None };
    }
    if !is_press && !state.is_key_down {
        return ProcessResult { consumed: false, emitted: None };
    }
    let emitted = if is_press {
        if state.is_key_down {
            None
        } else {
            state.is_key_down = true;
            match state.input_mode {
                InputMode::Hold => Some(HotkeyEvent::HoldStart),
                InputMode::Toggle => Some(HotkeyEvent::ShortPress),
            }
        }
    } else {
        let was_down = state.is_key_down;
        state.is_key_down = false;
        if state.input_mode == InputMode::Hold && was_down {
            Some(HotkeyEvent::HoldEnd)
        } else {
            None
        }
    };
    ProcessResult { consumed: true, emitted }
}

/// Clear the pressed-key bookkeeping.
pub fn reset_runtime_state(state: &mut HotkeyState)
    ensures
        *final(state) == (HotkeyState { active_mods: 0, is_key_down: false, ..*old(state) }),
{
    state.active_mods = 0;
    state.is_key_down = false;
}

/// Switch the state to a new hotkey and mode, forgetting pressed keys.
pub fn apply_config_to_state(state: &mut HotkeyState, hotkey: &ValidatedHotkey, input_mode: InputMode)
    ensures
        *final(state) == (HotkeyState {
            is_key_down: false,
            input_mode,
            combo: hotkey@.1,
            active_mods: 0,
        }),
{
    reset_runtime_state(state);
    state.combo = hotkey.combo();
    state.input_mode = input_mode;
}

// ── Escape abort ──

/// Escape-abort switches: enabled in settings, a session is active, and
/// whether Escape is currently held down.
#[derive(Debug, Clone, Copy, PartialEq, Eq, Structural)]
pub struct EscapeAbortState {
    pub enabled: bool,
    pub active: bool,
    pub key_down: bool,
}

/// The next Escape state and the result of an Escape press or release, or
/// `None` when Escape is not ours to handle.
pub open spec fn escape_spec(e: EscapeAbortState, is_press: bool) -> (EscapeAbortState, Option<ProcessResult>) {
    if !(e.enabled && e.active) && !e.key_down {
        (e, None)
    } else if is_press {
        (
            EscapeAbortState { key_down: true, ..e },
            Some(
                ProcessResult {
                    consumed: true,
                    emitted: if e.enabled && e.active && !e.key_down {
                        Some(HotkeyEvent::AbortSession)
                    } else {
                        None
                    },
                },
            ),
        )
    } else {
        (EscapeAbortState { key_down: false, ..e }, Some(ProcessResult { consumed: e.key_down, emitted: None }))
    }
}

/// Handle an Escape press or release for aborting the active session.
pub fn process_escape_abort_event(esc: &mut EscapeAbortState, is_press: bool) -> (r: Option<ProcessResult>)
    ensures
        (*final(esc), r) == escape_spec(*old(esc), is_press),
{
    let enabled = esc.enabled;
    let active = esc.active;
    let was_down = esc.key_down;
    if !(enabled && active) && !was_down {
        return None;
    }
    if is_press {
        let already_down = esc.key_down;
        esc.key_down = true;
        return Some(ProcessResult {
            consumed: true,
            emitted: if enabled && active && !already_down {
                Some(HotkeyEvent::AbortSession)
            } else {
                None
            },
        });
    }
    let consumed = esc.key_down;
    esc.key_down = false;
    Some(ProcessResult { consumed, emitted: None })
}

// ── Listener runtime ──

/// A key's identifier for the lock-free fallback: its virtual-key code,
/// which is non-zero and differs between keys.
pub fn key_hash(key: &Key) -> (h: u64)
    ensures
        h == key_vk(*key) as u64,
{
    match key {
        Key::KeyA => 0x41,
        Key::KeyB => 0x42,
        Key::KeyC => 0x43,
        Key::KeyD => 0x44,
        Key::KeyE => 0x45,
        Key::KeyF => 0x46,
        Key::KeyG => 0x47,
        Key::KeyH => 0x48,
        Key::KeyI => 0x49,
        Key::KeyJ => 0x4A,
        Key::KeyK => 0x4B,
        Key::KeyL => 0x4C,
        Key::KeyM => 0x4D,
        Key::KeyN => 0x4E,
        Key::KeyO => 0x4F,
        Key::KeyP => 0x50,
        Key::KeyQ => 0x51,
        Key::KeyR => 0x52,
        Key::KeyS => 0x53,
        Key::KeyT => 0x54,
        Key::KeyU => 0x55,
        Key::KeyV => 0x56,
        Key::KeyW => 0x57,
        Key::KeyX => 0x58,
        Key::KeyY => 0x59,
        Key::KeyZ => 0x5A,
        Key::Num0 => 0x30,
        Key::Num1 => 0x31,
        Key::Num2 => 0x32,
        Key::Num3 => 0x33,
        Key::Num4 => 0x34,
        Key::Num5 => 0x35,
        Key::Num6 => 0x36,
        Key::Num7 => 0x37,
        Key::Num8 => 0x38,
        Key::Num9 => 0x39,
        Key::F1 => 0x70,
        Key::F2 => 0x71,
        Key::F3 => 0x72,
        Key::F4 => 0x73,
        Key::F5 => 0x74,
        Key::F6 => 0x75,
        Key::F7 => 0x76,
        Key::F8 => 0x77,
        Key::F9 => 0x78,
        Key::F10 => 0x79,
        Key::F11 => 0x7A,
        Key::F12 => 0x7B,
        Key::CapsLock => 0x14,
        Key::NumLock => 0x90,
        Key::ScrollLock => 0x91,
        Key::Space => 0x20,
        Key::Tab => 0x09,
        Key::Return => 0x0D,
        Key::Escape => 0x1B,
        Key::Backspace => 0x08,
        Key::Delete => 0x2E,
        Key::Insert => 0x2D,
        Key::Home => 0x24,
        Key::End => 0x23,
        Key::PageUp => 0x21,
        Key::PageDown => 0x22,
        Key::UpArrow => 0x26,
        Key::DownArrow => 0x28,
        Key::LeftArrow => 0x25,
        Key::RightArrow => 0x27,
        Key::PrintScreen => 0x2C,
        Key::Pause => 0x13,
        Key::Kp0 => 0x60,
        Key::Kp1 => 0x61,
        Key::Kp2 => 0x62,
        Key::Kp3 => 0x63,
        Key::Kp4 => 0x64,
        Key::Kp5 => 0x65,
        Key::Kp6 => 0x66,
        Key::Kp7 => 0x67,
        Key::Kp8 => 0x68,
        Key::Kp9 => 0x69,
        Key::BackQuote => 0xC0,
        Key::Minus => 0xBD,
        Key::Equal => 0xBB,
        Key::LeftBracket => 0xDB,
        Key::RightBracket => 0xDD,
        Key::BackSlash => 0xDC,
        Key::SemiColon => 0xBA,
        Key::Quote => 0xDE,
        Key::Comma => 0xBC,
        Key::Dot => 0xBE,
        Key::Slash => 0xBF,
        Key::ShiftLeft => 0xA0,
        Key::ShiftRight => 0xA1,
        Key::ControlLeft => 0xA2,
        Key::ControlRight => 0xA3,
        Key::Alt => 0xA4,
        Key::AltGr => 0xA5,
        Key::MetaLeft => 0x5B,
        Key::MetaRight => 0x5C,
    }
}

/// Distinct keys have distinct identifiers, and none is zero.
pub proof fn lemma_key_hash_injective(a: Key, b: Key)
    ensures
        key_vk(a) > 0,
        key_vk(a) == key_vk(b) ==> a == b,
{
    lemma_vk_roundtrip(a);
    lemma_vk_roundtrip(b);
}

/// Everything the keyboard hook decides with: the handler state (once the
/// listener has started), the trigger key's identifier for use while the
/// state is locked by another thread, and the Escape-abort switches.
#[derive(Debug, Clone, Copy, PartialEq, Eq, Structural)]
pub struct HotkeyRuntime {
    pub state: Option<HotkeyState>,
    pub trigger_key_hash: u64,
    pub escape: EscapeAbortState,
}

impl HotkeyRuntime {
    /// Nothing started yet; Escape-abort enabled but no active session.
    pub fn new() -> (r: Self)
        ensures
            r == (HotkeyRuntime {
                state: None,
                trigger_key_hash: 0,
                escape: EscapeAbortState { enabled: true, active: false, key_down: false },
            }),
    {
        HotkeyRuntime {
            state: None,
            trigger_key_hash: 0,
            escape: EscapeAbortState { enabled: true, active: false, key_down: false },
        }
    }
}

/// The state the listener starts from: set up once, then configured for
/// `hotkey` and `input_mode` with no key held.
pub fn prepare_listener(rt: &mut HotkeyRuntime, hotkey: &ValidatedHotkey, input_mode: InputMode)
    ensures
        final(rt).trigger_key_hash == key_vk(hotkey@.1.key) as u64,
        final(rt).state == Some(
            HotkeyState { is_key_down: false, input_mode, combo: hotkey@.1, active_mods: 0 },
        ),
        final(rt).escape == old(rt).escape,
{
    let combo = hotkey.combo();
    let mut state = match rt.state {
        Some(s) => s,
        None => HotkeyState { is_key_down: false, input_mode, combo, active_mods: 0 },
    };
    rt.trigger_key_hash = key_hash(&combo.key);
    apply_config_to_state(&mut state, hotkey, input_mode);
    rt.state = Some(state);
}

/// Update the hotkey configuration at runtime.
pub fn update_config(rt: &mut HotkeyRuntime, hotkey: &ValidatedHotkey, input_mode: InputMode)
    ensures
        final(rt).trigger_key_hash == key_vk(hotkey@.1.key) as u64,
        final(rt).state == match old(rt).state {
            Some(_) => Some(
                HotkeyState { is_key_down: false, input_mode, combo: hotkey@.1, active_mods: 0 },
            ),
            None => None::<HotkeyState>,
        },
        final(rt).escape == old(rt).escape,
{
    rt.trigger_key_hash = key_hash(&hotkey.combo().key);
    match rt.state {
        Some(s) => {
            let mut s2 = s;
            apply_config_to_state(&mut s2, hotkey, input_mode);
            rt.state = Some(s2);
        },
        None => {},
    }
}

/// Update whether Escape-based abort is enabled in settings.
pub fn update_escape_abort_config(rt: &mut HotkeyRuntime, enabled: bool)
    ensures
        *final(rt) == (HotkeyRuntime {
            escape: EscapeAbortState { enabled, ..old(rt).escape },
            ..*old(rt)
        }),
{
    rt.escape.enabled = enabled;
}

/// Update whether there is an active session that Escape may abort.
pub fn set_escape_abort_active(rt: &mut HotkeyRuntime, active: bool)
    ensures
        *final(rt) == (HotkeyRuntime {
            escape: EscapeAbortState { active, ..old(rt).escape },
            ..*old(rt)
        }),
{
    rt.escape.active = active;
}

/// The next runtime and the decision for one key event.  `locked_elsewhere`
/// tells that another thread holds the handler state (during a configuration
/// update): then the trigger key is still consumed, by its identifier.
pub open spec fn handle_spec(rt: HotkeyRuntime, locked_elsewhere: bool, key: Key, is_press: bool) -> (HotkeyRuntime, ProcessResult) {
    let (esc2, esc_r) = escape_spec(rt.escape, is_press);
    if key == Key::Escape && esc_r is Some {
        (HotkeyRuntime { escape: esc2, ..rt }, esc_r->0)
    } else {
        match rt.state {
            None => (rt, pass_through()),
            Some(s) => if locked_elsewhere {
                (
                    rt,
                    ProcessResult {
                        consumed: !is_modifier(key) && rt.trigger_key_hash != 0 && key_vk(key)
                            as u64 == rt.trigger_key_hash,
                        emitted: None,
                    },
                )
            } else {
                let (s2, r) = process_spec(s, key, is_press);
                (HotkeyRuntime { state: Some(s2), ..rt }, r)
            },
        }
    }
}

/// Handle a key event from the keyboard hook: whether to suppress it, and
/// which event (if any) to send to the app.
pub fn handle_key_event(rt: &mut HotkeyRuntime, locked_elsewhere: bool, key: Key, is_press: bool) -> (r: ProcessResult)
    ensures
        (*final(rt), r) == handle_spec(*old(rt), locked_elsewhere, key, is_press),
{
    if key == Key::Escape {
        let mut esc = rt.escape;
        if let Some(result) = process_escape_abort_event(&mut esc, is_press) {
            rt.escape = esc;
            return result;
        }
    }
    match rt.state {
        None => ProcessResult { consumed: false, emitted: None },
        Some(s) => {
            if locked_elsewhere {
                if is_modifier_key(&key) {
                    return ProcessResult { consumed: false, emitted: None };
                }
                let expected = rt.trigger_key_hash;
                let consumed = expected != 0 && key_hash(&key) == expected;
                return ProcessResult { consumed, emitted: None };
            }
            let mut s2 = s;
            let r = process_key_event(&mut s2, key, is_press);
            rt.state = Some(s2);
            r
        },
    }
}

// ── Laws of the key-event state machine ──

/// Modifier keys are never consumed and never emit an event; they change
/// only the set of pressed modifiers.
pub proof fn lemma_modifiers_pass_through(s: HotkeyState, key: Key, is_press: bool)
    requires
        is_modifier(key),
    ensures
        process_spec(s, key, is_press).1 == pass_through(),
        process_spec(s, key, is_press).0.is_key_down == s.is_key_down,
        process_spec(s, key, is_press).0.combo == s.combo,
        process_spec(s, key, is_press).0.input_mode == s.input_mode,
{
}

/// Keys other than the trigger and the modifiers pass through and leave
/// the state unchanged.
pub proof fn lemma_other_keys_pass_through(s: HotkeyState, key: Key, is_press: bool)
    requires
        !is_modifier(key),
        key != s.combo.key,
    ensures
        process_spec(s, key, is_press) == (s, pass_through()),
{
}

/// A release of the trigger key that was never pressed (as far as the
/// handler saw) is not consumed and changes nothing.
pub proof fn lemma_release_without_press(s: HotkeyState, key: Key)
    requires
        !s.is_key_down,
    ensures
        !process_spec(s, key, false).1.consumed,
        !is_modifier(key) ==> process_spec(s, key, false) == (s, pass_through()),
{
}

/// The key-down flag changes only on a consumed trigger event; `HoldStart`
/// and `ShortPress` are emitted only when the key goes down and `HoldEnd`
/// only when it comes up, so in hold mode start and end events alternate.
pub proof fn lemma_press_release_alternate(s: HotkeyState, key: Key, is_press: bool)
    ensures
        ({
            let (s2, r) = process_spec(s, key, is_press);
            &&& s2.is_key_down != s.is_key_down ==> r.consumed && key == s.combo.key
            &&& (r.emitted == Some(HotkeyEvent::HoldStart) || r.emitted == Some(
                HotkeyEvent::ShortPress,
            )) ==> !s.is_key_down && s2.is_key_down && is_press
            &&& r.emitted == Some(HotkeyEvent::HoldEnd) ==> s.is_key_down && !s2.is_key_down
                && !is_press
            &&& r.emitted != Some(HotkeyEvent::AbortSession)
            &&& s2.combo == s.combo && s2.input_mode == s.input_mode
        }),
{
}

/// Toggle mode emits only `ShortPress`; hold mode never emits it.
pub proof fn lemma_mode_events(s: HotkeyState, key: Key, is_press: bool)
    ensures
        ({
            let r = process_spec(s, key, is_press).1;
            &&& s.input_mode == InputMode::Toggle ==> (r.emitted is None || r.emitted == Some(
                HotkeyEvent::ShortPress,
            ))
            &&& s.input_mode == InputMode::Hold ==> r.emitted != Some(HotkeyEvent::ShortPress)
        }),
{
}

/// Escape aborts at most once per key-down: a repeated press while Escape is
/// held emits nothing, and Escape is ignored unless abort is enabled and a
/// session is active (or Escape is still held from an earlier press).
pub proof fn lemma_escape_once(e: EscapeAbortState, is_press: bool)
    ensures
        ({
            let (e2, r) = escape_spec(e, is_press);
            &&& (r is Some && r->0.emitted == Some(HotkeyEvent::AbortSession)) ==> is_press
                && !e.key_down && e2.key_down && e.enabled && e.active
            &&& (!(e.enabled && e.active) && !e.key_down) ==> r is None && e2 == e
            &&& e2.enabled == e.enabled && e2.active == e.active
        }),
{
}




// ── Normalized names are stable ──

/// The modifier names, upper-cased.
pub open spec fn is_modifier_name(u: Seq<char>) -> bool {
    u == "CTRL"@ || u == "CONTROL"@ || u == "ALT"@ || u == "SHIFT"@
}

/// A trigger key whose normalized name reads back as itself: non-empty,
/// without surrounding whitespace or `+`, not a modifier name, and naming
/// the same key.
#[verifier::opaque]
pub open spec fn stable_key(k: KeySpecView) -> bool {
    let n = k.normalized;
    &&& n.len() > 0
    &&& !is_ws(n[0])
    &&& !is_ws(n.last())
    &&& forall|i: int| 0 <= i < n.len() ==> n[i] != '+'
    &&& !is_modifier_name(upper_seq(n))
    &&& parse_key_spec_spec(n) == Some(k)
}

/// Sequences that differ at an index differ.
proof fn lemma_seqs_differ(a: Seq<char>, b: Seq<char>, i: int)
    requires
        0 <= i < a.len(),
        i < b.len(),
        a[i] != b[i],
    ensures
        a != b,
{
}

proof fn lemma_stable_name(n: Seq<char>, u: Seq<char>, k: KeySpecView)
    requires
        k.normalized == n,
        n.len() > 0,
        !is_ws(n[0]),
        !is_ws(n.last()),
        forall|i: int| 0 <= i < n.len() ==> n[i] != '+',
        upper_seq(n) == u,
        !is_modifier_name(u),
        named_key(u) == Some(k),
    ensures
        stable_key(k),
{
    reveal(stable_key);
    assert(trim_start(n) == n);
    assert(trim_end(n) == n);
}

/// These named keys read back as themselves.
proof fn lemma_keys_f1_to_f6_stable()
    ensures
        stable_key(ksv(Key::F1, "F1"@, true)),
        stable_key(ksv(Key::F2, "F2"@, true)),
        stable_key(ksv(Key::F3, "F3"@, true)),
        stable_key(ksv(Key::F4, "F4"@, true)),
        stable_key(ksv(Key::F5, "F5"@, true)),
        stable_key(ksv(Key::F6, "F6"@, true)),
{
    reveal_strlit("ALT");
    reveal_strlit("CONTROL");
    reveal_strlit("CTRL");
    reveal_strlit("F1");
    reveal_strlit("F2");
    reveal_strlit("F3");
    reveal_strlit("F4");
    reveal_strlit("F5");
    reveal_strlit("F6");
    reveal_strlit("SHIFT");
    assert(upper_seq("F1"@) =~= "F1"@);
    lemma_stable_name("F1"@, "F1"@, ksv(Key::F1, "F1"@, true));
    lemma_seqs_differ("F2"@, "F1"@, 1);
    assert(upper_seq("F2"@) =~= "F2"@);
    lemma_stable_name("F2"@, "F2"@, ksv(Key::F2, "F2"@, true));
    lemma_seqs_differ("F3"@, "F1"@, 1);
    lemma_seqs_differ("F3"@, "F2"@, 1);
    assert(upper_seq("F3"@) =~= "F3"@);
    lemma_stable_name("F3"@, "F3"@, ksv(Key::F3, "F3"@, true));
    lemma_seqs_differ("F4"@, "F1"@, 1);
    lemma_seqs_differ("F4"@, "F2"@, 1);
    lemma_seqs_differ("F4"@, "F3"@, 1);
    assert(upper_seq("F4"@) =~= "F4"@);
    lemma_stable_name("F4"@, "F4"@, ksv(Key::F4, "F4"@, true));
    lemma_seqs_differ("F5"@, "F1"@, 1);
    lemma_seqs_differ("F5"@, "F2"@, 1);
    lemma_seqs_differ("F5"@, "F3"@, 1);
    lemma_seqs_differ("F5"@, "F4"@, 1);
    assert(upper_seq("F5"@) =~= "F5"@);
    lemma_stable_name("F5"@, "F5"@, ksv(Key::F5, "F5"@, true));
    lemma_seqs_differ("F6"@, "F1"@, 1);
    lemma_seqs_differ("F6"@, "F2"@, 1);
    lemma_seqs_differ("F6"@, "F3"@, 1);
    lemma_seqs_differ("F6"@, "F4"@, 1);
    lemma_seqs_differ("F6"@, "F5"@, 1);
    assert(upper_seq("F6"@) =~= "F6"@);
    lemma_stable_name("F6"@, "F6"@, ksv(Key::F6, "F6"@, true));
}

/// These named keys read back as themselves.
proof fn lemma_keys_f7_to_f12_stable()
    ensures
        stable_key(ksv(Key::F7, "F7"@, true)),
        stable_key(ksv(Key::F8, "F8"@, true)),
        stable_key(ksv(Key::F9, "F9"@, true)),
        stable_key(ksv(Key::F10, "F10"@, true)),
        stable_key(ksv(Key::F11, "F11"@, true)),
        stable_key(ksv(Key::F12, "F12"@, true)),
{
    reveal_strlit("ALT");
    reveal_strlit("CONTROL");
    reveal_strlit("CTRL");
    reveal_strlit("F1");
    reveal_strlit("F10");
    reveal_strlit("F11");
    reveal_strlit("F12");
    reveal_strlit("F2");
    reveal_strlit("F3");
    reveal_strlit("F4");
    reveal_strlit("F5");
    reveal_strlit("F6");
    reveal_strlit("F7");
    reveal_strlit("F8");
    reveal_strlit("F9");
    reveal_strlit("SHIFT");
    lemma_seqs_differ("F7"@, "F1"@, 1);
    lemma_seqs_differ("F7"@, "F2"@, 1);
    lemma_seqs_differ("F7"@, "F3"@, 1);
    lemma_seqs_differ("F7"@, "F4"@, 1);
    lemma_seqs_differ("F7"@, "F5"@, 1);
    lemma_seqs_differ("F7"@, "F6"@, 1);
    assert(upper_seq("F7"@) =~= "F7"@);
    lemma_stable_name("F7"@, "F7"@, ksv(Key::F7, "F7"@, true));
    lemma_seqs_differ("F8"@, "F1"@, 1);
    lemma_seqs_differ("F8"@, "F2"@, 1);
    lemma_seqs_differ("F8"@, "F3"@, 1);
    lemma_seqs_differ("F8"@, "F4"@, 1);
    lemma_seqs_differ("F8"@, "F5"@, 1);
    lemma_seqs_differ("F8"@, "F6"@, 1);
    lemma_seqs_differ("F8"@, "F7"@, 1);
    assert(upper_seq("F8"@) =~= "F8"@);
    lemma_stable_name("F8"@, "F8"@, ksv(Key::F8, "F8"@, true));
    lemma_seqs_differ("F9"@, "F1"@, 1);
    lemma_seqs_differ("F9"@, "F2"@, 1);
    lemma_seqs_differ("F9"@, "F3"@, 1);
    lemma_seqs_differ("F9"@, "F4"@, 1);
    lemma_seqs_differ("F9"@, "F5"@, 1);
    lemma_seqs_differ("F9"@, "F6"@, 1);
    lemma_seqs_differ("F9"@, "F7"@, 1);
    lemma_seqs_differ("F9"@, "F8"@, 1);
    assert(upper_seq("F9"@) =~= "F9"@);
    lemma_stable_name("F9"@, "F9"@, ksv(Key::F9, "F9"@, true));
    lemma_seqs_differ("F10"@, "ALT"@, 0);
    assert(upper_seq("F10"@) =~= "F10"@);
    lemma_stable_name("F10"@, "F10"@, ksv(Key::F10, "F10"@, true));
    lemma_seqs_differ("F11"@, "F10"@, 2);
    lemma_seqs_differ("F11"@, "ALT"@, 0);
    assert(upper_seq("F11"@) =~= "F11"@);
    lemma_stable_name("F11"@, "F11"@, ksv(Key::F11, "F11"@, true));
    lemma_seqs_differ("F12"@, "F10"@, 2);
    lemma_seqs_differ("F12"@, "F11"@, 2);
    lemma_seqs_differ("F12"@, "ALT"@, 0);
    assert(upper_seq("F12"@) =~= "F12"@);
    lemma_stable_name("F12"@, "F12"@, ksv(Key::F12, "F12"@, true));
}

/// These named keys read back as themselves.
proof fn lemma_lock_and_space_keys_stable()
    ensures
        stable_key(ksv(Key::CapsLock, "CapsLock"@, true)),
        stable_key(ksv(Key::NumLock, "NumLock"@, true)),
        stable_key(ksv(Key::ScrollLock, "ScrollLock"@, true)),
        stable_key(ksv(Key::Space, "Space"@, false)),
        stable_key(ksv(Key::Tab, "Tab"@, true)),
        stable_key(ksv(Key::Return, "Enter"@, true)),
{
    reveal_strlit("ALT");
    reveal_strlit("CAPS");
    reveal_strlit("CAPSLOCK");
    reveal_strlit("CONTROL");
    reveal_strlit("CTRL");
    reveal_strlit("CapsLock");
    reveal_strlit("ENTER");
    reveal_strlit("Enter");
    reveal_strlit("F1");
    reveal_strlit("F10");
    reveal_strlit("F11");
    reveal_strlit("F12");
    reveal_strlit("F2");
    reveal_strlit("F3");
    reveal_strlit("F4");
    reveal_strlit("F5");
    reveal_strlit("F6");
    reveal_strlit("F7");
    reveal_strlit("F8");
    reveal_strlit("F9");
    reveal_strlit("NUMLOCK");
    reveal_strlit("NumLock");
    reveal_strlit("SCROLLLOCK");
    reveal_strlit("SHIFT");
    reveal_strlit("SPACE");
    reveal_strlit("ScrollLock");
    reveal_strlit("Space");
    reveal_strlit("TAB");
    reveal_strlit("Tab");
    assert(upper_seq("CapsLock"@) =~= "CAPSLOCK"@);
    lemma_stable_name("CapsLock"@, "CAPSLOCK"@, ksv(Key::CapsLock, "CapsLock"@, true));
    lemma_seqs_differ("NUMLOCK"@, "CONTROL"@, 0);
    assert(upper_seq("NumLock"@) =~= "NUMLOCK"@);
    lemma_stable_name("NumLock"@, "NUMLOCK"@, ksv(Key::NumLock, "NumLock"@, true));
    assert(upper_seq("ScrollLock"@) =~= "SCROLLLOCK"@);
    lemma_stable_name("ScrollLock"@, "SCROLLLOCK"@, ksv(Key::ScrollLock, "ScrollLock"@, true));
    lemma_seqs_differ("SPACE"@, "SHIFT"@, 1);
    assert(upper_seq("Space"@) =~= "SPACE"@);
    lemma_stable_name("Space"@, "SPACE"@, ksv(Key::Space, "Space"@, false));
    lemma_seqs_differ("TAB"@, "F10"@, 0);
    lemma_seqs_differ("TAB"@, "F11"@, 0);
    lemma_seqs_differ("TAB"@, "F12"@, 0);
    lemma_seqs_differ("TAB"@, "ALT"@, 0);
    assert(upper_seq("Tab"@) =~= "TAB"@);
    lemma_stable_name("Tab"@, "TAB"@, ksv(Key::Tab, "Tab"@, true));
    lemma_seqs_differ("ENTER"@, "SPACE"@, 0);
    lemma_seqs_differ("ENTER"@, "SHIFT"@, 0);
    assert(upper_seq("Enter"@) =~= "ENTER"@);
    lemma_stable_name("Enter"@, "ENTER"@, ksv(Key::Return, "Enter"@, true));
}

/// These named keys read back as themselves.
proof fn lemma_edit_keys_stable()
    ensures
        stable_key(ksv(Key::Escape, "Escape"@, true)),
        stable_key(ksv(Key::Backspace, "Backspace"@, false)),
        stable_key(ksv(Key::Delete, "Delete"@, false)),
        stable_key(ksv(Key::Insert, "Insert"@, false)),
        stable_key(ksv(Key::Home, "Home"@, false)),
        stable_key(ksv(Key::End, "End"@, false)),
{
    reveal_strlit("ALT");
    reveal_strlit("BACKSPACE");
    reveal_strlit("Backspace");
    reveal_strlit("CAPS");
    reveal_strlit("CAPSLOCK");
    reveal_strlit("CONTROL");
    reveal_strlit("CTRL");
    reveal_strlit("DELETE");
    reveal_strlit("Delete");
    reveal_strlit("END");
    reveal_strlit("ENTER");
    reveal_strlit("ESC");
    reveal_strlit("ESCAPE");
    reveal_strlit("End");
    reveal_strlit("Escape");
    reveal_strlit("F1");
    reveal_strlit("F10");
    reveal_strlit("F11");
    reveal_strlit("F12");
    reveal_strlit("F2");
    reveal_strlit("F3");
    reveal_strlit("F4");
    reveal_strlit("F5");
    reveal_strlit("F6");
    reveal_strlit("F7");
    reveal_strlit("F8");
    reveal_strlit("F9");
    reveal_strlit("HOME");
    reveal_strlit("Home");
    reveal_strlit("INSERT");
    reveal_strlit("Insert");
    reveal_strlit("NUMLOCK");
    reveal_strlit("SCROLLLOCK");
    reveal_strlit("SHIFT");
    reveal_strlit("SPACE");
    reveal_strlit("TAB");
    assert(upper_seq("Escape"@) =~= "ESCAPE"@);
    lemma_stable_name("Escape"@, "ESCAPE"@, ksv(Key::Escape, "Escape"@, true));
    assert(upper_seq("Backspace"@) =~= "BACKSPACE"@);
    lemma_stable_name("Backspace"@, "BACKSPACE"@, ksv(Key::Backspace, "Backspace"@, false));
    lemma_seqs_differ("DELETE"@, "ESCAPE"@, 0);
    assert(upper_seq("Delete"@) =~= "DELETE"@);
    lemma_stable_name("Delete"@, "DELETE"@, ksv(Key::Delete, "Delete"@, false));
    lemma_seqs_differ("INSERT"@, "ESCAPE"@, 0);
    lemma_seqs_differ("INSERT"@, "DELETE"@, 0);
    assert(upper_seq("Insert"@) =~= "INSERT"@);
    lemma_stable_name("Insert"@, "INSERT"@, ksv(Key::Insert, "Insert"@, false));
    lemma_seqs_differ("HOME"@, "CAPS"@, 0);
    lemma_seqs_differ("HOME"@, "CTRL"@, 0);
    assert(upper_seq("Home"@) =~= "HOME"@);
    lemma_stable_name("Home"@, "HOME"@, ksv(Key::Home, "Home"@, false));
    lemma_seqs_differ("END"@, "F10"@, 0);
    lemma_seqs_differ("END"@, "F11"@, 0);
    lemma_seqs_differ("END"@, "F12"@, 0);
    lemma_seqs_differ("END"@, "TAB"@, 0);
    lemma_seqs_differ("END"@, "ESC"@, 1);
    lemma_seqs_differ("END"@, "ALT"@, 0);
    assert(upper_seq("End"@) =~= "END"@);
    lemma_stable_name("End"@, "END"@, ksv(Key::End, "End"@, false));
}

/// These named keys read back as themselves.
proof fn lemma_page_and_arrow_keys_stable()
    ensures
        stable_key(ksv(Key::PageUp, "PageUp"@, false)),
        stable_key(ksv(Key::PageDown, "PageDown"@, false)),
        stable_key(ksv(Key::UpArrow, "Up"@, false)),
        stable_key(ksv(Key::DownArrow, "Down"@, false)),
        stable_key(ksv(Key::LeftArrow, "Left"@, false)),
        stable_key(ksv(Key::RightArrow, "Right"@, false)),
{
    reveal_strlit("ALT");
    reveal_strlit("BACKSPACE");
    reveal_strlit("CAPS");
    reveal_strlit("CAPSLOCK");
    reveal_strlit("CONTROL");
    reveal_strlit("CTRL");
    reveal_strlit("DELETE");
    reveal_strlit("DOWN");
    reveal_strlit("Down");
    reveal_strlit("END");
    reveal_strlit("ENTER");
    reveal_strlit("ESC");
    reveal_strlit("ESCAPE");
    reveal_strlit("F1");
    reveal_strlit("F10");
    reveal_strlit("F11");
    reveal_strlit("F12");
    reveal_strlit("F2");
    reveal_strlit("F3");
    reveal_strlit("F4");
    reveal_strlit("F5");
    reveal_strlit("F6");
    reveal_strlit("F7");
    reveal_strlit("F8");
    reveal_strlit("F9");
    reveal_strlit("HOME");
    reveal_strlit("INSERT");
    reveal_strlit("LEFT");
    reveal_strlit("Left");
    reveal_strlit("NUMLOCK");
    reveal_strlit("PAGEDOWN");
    reveal_strlit("PAGEUP");
    reveal_strlit("PageDown");
    reveal_strlit("PageUp");
    reveal_strlit("RIGHT");
    reveal_strlit("Right");
    reveal_strlit("SCROLLLOCK");
    reveal_strlit("SHIFT");
    reveal_strlit("SPACE");
    reveal_strlit("TAB");
    reveal_strlit("UP");
    reveal_strlit("Up");
    lemma_seqs_differ("PAGEUP"@, "ESCAPE"@, 0);
    lemma_seqs_differ("PAGEUP"@, "DELETE"@, 0);
    lemma_seqs_differ("PAGEUP"@, "INSERT"@, 0);
    assert(upper_seq("PageUp"@) =~= "PAGEUP"@);
    lemma_stable_name("PageUp"@, "PAGEUP"@, ksv(Key::PageUp, "PageUp"@, false));
    lemma_seqs_differ("PAGEDOWN"@, "CAPSLOCK"@, 0);
    assert(upper_seq("PageDown"@) =~= "PAGEDOWN"@);
    lemma_stable_name("PageDown"@, "PAGEDOWN"@, ksv(Key::PageDown, "PageDown"@, false));
    lemma_seqs_differ("UP"@, "F1"@, 0);
    lemma_seqs_differ("UP"@, "F2"@, 0);
    lemma_seqs_differ("UP"@, "F3"@, 0);
    lemma_seqs_differ("UP"@, "F4"@, 0);
    lemma_seqs_differ("UP"@, "F5"@, 0);
    lemma_seqs_differ("UP"@, "F6"@, 0);
    lemma_seqs_differ("UP"@, "F7"@, 0);
    lemma_seqs_differ("UP"@, "F8"@, 0);
    lemma_seqs_differ("UP"@, "F9"@, 0);
    assert(upper_seq("Up"@) =~= "UP"@);
    lemma_stable_name("Up"@, "UP"@, ksv(Key::UpArrow, "Up"@, false));
    lemma_seqs_differ("DOWN"@, "CAPS"@, 0);
    lemma_seqs_differ("DOWN"@, "HOME"@, 0);
    lemma_seqs_differ("DOWN"@, "CTRL"@, 0);
    assert(upper_seq("Down"@) =~= "DOWN"@);
    lemma_stable_name("Down"@, "DOWN"@, ksv(Key::DownArrow, "Down"@, false));
    lemma_seqs_differ("LEFT"@, "CAPS"@, 0);
    lemma_seqs_differ("LEFT"@, "HOME"@, 0);
    lemma_seqs_differ("LEFT"@, "DOWN"@, 0);
    lemma_seqs_differ("LEFT"@, "CTRL"@, 0);
    assert(upper_seq("Left"@) =~= "LEFT"@);
    lemma_stable_name("Left"@, "LEFT"@, ksv(Key::LeftArrow, "Left"@, false));
    lemma_seqs_differ("RIGHT"@, "SPACE"@, 0);
    lemma_seqs_differ("RIGHT"@, "ENTER"@, 0);
    lemma_seqs_differ("RIGHT"@, "SHIFT"@, 0);
    assert(upper_seq("Right"@) =~= "RIGHT"@);
    lemma_stable_name("Right"@, "RIGHT"@, ksv(Key::RightArrow, "Right"@, false));
}

/// These named keys read back as themselves.
proof fn lemma_print_pause_and_low_keypad_keys_stable()
    ensures
        stable_key(ksv(Key::PrintScreen, "PrintScreen"@, true)),
        stable_key(ksv(Key::Pause, "Pause"@, true)),
        stable_key(ksv(Key::Kp0, "Num0"@, false)),
        stable_key(ksv(Key::Kp1, "Num1"@, false)),
        stable_key(ksv(Key::Kp2, "Num2"@, false)),
        stable_key(ksv(Key::Kp3, "Num3"@, false)),
{
    reveal_strlit("ALT");
    reveal_strlit("BACKSPACE");
    reveal_strlit("CAPS");
    reveal_strlit("CAPSLOCK");
    reveal_strlit("CONTROL");
    reveal_strlit("CTRL");
    reveal_strlit("DELETE");
    reveal_strlit("DOWN");
    reveal_strlit("END");
    reveal_strlit("ENTER");
    reveal_strlit("ESC");
    reveal_strlit("ESCAPE");
    reveal_strlit("F1");
    reveal_strlit("F10");
    reveal_strlit("F11");
    reveal_strlit("F12");
    reveal_strlit("F2");
    reveal_strlit("F3");
    reveal_strlit("F4");
    reveal_strlit("F5");
    reveal_strlit("F6");
    reveal_strlit("F7");
    reveal_strlit("F8");
    reveal_strlit("F9");
    reveal_strlit("HOME");
    reveal_strlit("INSERT");
    reveal_strlit("LEFT");
    reveal_strlit("NUM0");
    reveal_strlit("NUM1");
    reveal_strlit("NUM2");
    reveal_strlit("NUM3");
    reveal_strlit("NUMLOCK");
    reveal_strlit("Num0");
    reveal_strlit("Num1");
    reveal_strlit("Num2");
    reveal_strlit("Num3");
    reveal_strlit("PAGEDOWN");
    reveal_strlit("PAGEUP");
    reveal_strlit("PAUSE");
    reveal_strlit("PRINTSCREEN");
    reveal_strlit("PRTSC");
    reveal_strlit("Pause");
    reveal_strlit("PrintScreen");
    reveal_strlit("RIGHT");
    reveal_strlit("SCROLLLOCK");
    reveal_strlit("SHIFT");
    reveal_strlit("SPACE");
    reveal_strlit("TAB");
    reveal_strlit("UP");
    assert(upper_seq("PrintScreen"@) =~= "PRINTSCREEN"@);
    lemma_stable_name("PrintScreen"@, "PRINTSCREEN"@, ksv(Key::PrintScreen, "PrintScreen"@, true));
    lemma_seqs_differ("PAUSE"@, "SPACE"@, 0);
    lemma_seqs_differ("PAUSE"@, "ENTER"@, 0);
    lemma_seqs_differ("PAUSE"@, "RIGHT"@, 0);
    lemma_seqs_differ("PAUSE"@, "PRTSC"@, 1);
    lemma_seqs_differ("PAUSE"@, "SHIFT"@, 0);
    assert(upper_seq("Pause"@) =~= "PAUSE"@);
    lemma_stable_name("Pause"@, "PAUSE"@, ksv(Key::Pause, "Pause"@, true));
    lemma_seqs_differ("NUM0"@, "CAPS"@, 0);
    lemma_seqs_differ("NUM0"@, "HOME"@, 0);
    lemma_seqs_differ("NUM0"@, "DOWN"@, 0);
    lemma_seqs_differ("NUM0"@, "LEFT"@, 0);
    lemma_seqs_differ("NUM0"@, "CTRL"@, 0);
    assert(upper_seq("Num0"@) =~= "NUM0"@);
    lemma_stable_name("Num0"@, "NUM0"@, ksv(Key::Kp0, "Num0"@, false));
    lemma_seqs_differ("NUM1"@, "CAPS"@, 0);
    lemma_seqs_differ("NUM1"@, "HOME"@, 0);
    lemma_seqs_differ("NUM1"@, "DOWN"@, 0);
    lemma_seqs_differ("NUM1"@, "LEFT"@, 0);
    lemma_seqs_differ("NUM1"@, "NUM0"@, 3);
    lemma_seqs_differ("NUM1"@, "CTRL"@, 0);
    assert(upper_seq("Num1"@) =~= "NUM1"@);
    lemma_stable_name("Num1"@, "NUM1"@, ksv(Key::Kp1, "Num1"@, false));
    lemma_seqs_differ("NUM2"@, "CAPS"@, 0);
    lemma_seqs_differ("NUM2"@, "HOME"@, 0);
    lemma_seqs_differ("NUM2"@, "DOWN"@, 0);
    lemma_seqs_differ("NUM2"@, "LEFT"@, 0);
    lemma_seqs_differ("NUM2"@, "NUM0"@, 3);
    lemma_seqs_differ("NUM2"@, "NUM1"@, 3);
    lemma_seqs_differ("NUM2"@, "CTRL"@, 0);
    assert(upper_seq("Num2"@) =~= "NUM2"@);
    lemma_stable_name("Num2"@, "NUM2"@, ksv(Key::Kp2, "Num2"@, false));
    lemma_seqs_differ("NUM3"@, "CAPS"@, 0);
    lemma_seqs_differ("NUM3"@, "HOME"@, 0);
    lemma_seqs_differ("NUM3"@, "DOWN"@, 0);
    lemma_seqs_differ("NUM3"@, "LEFT"@, 0);
    lemma_seqs_differ("NUM3"@, "NUM0"@, 3);
    lemma_seqs_differ("NUM3"@, "NUM1"@, 3);
    lemma_seqs_differ("NUM3"@, "NUM2"@, 3);
    lemma_seqs_differ("NUM3"@, "CTRL"@, 0);
    assert(upper_seq("Num3"@) =~= "NUM3"@);
    lemma_stable_name("Num3"@, "NUM3"@, ksv(Key::Kp3, "Num3"@, false));
}

/// These named keys read back as themselves.
proof fn lemma_high_keypad_keys_stable()
    ensures
        stable_key(ksv(Key::Kp4, "Num4"@, false)),
        stable_key(ksv(Key::Kp5, "Num5"@, false)),
        stable_key(ksv(Key::Kp6, "Num6"@, false)),
        stable_key(ksv(Key::Kp7, "Num7"@, false)),
        stable_key(ksv(Key::Kp8, "Num8"@, false)),
        stable_key(ksv(Key::Kp9, "Num9"@, false)),
{
    reveal_strlit("ALT");
    reveal_strlit("BACKSPACE");
    reveal_strlit("CAPS");
    reveal_strlit("CAPSLOCK");
    reveal_strlit("CONTROL");
    reveal_strlit("CTRL");
    reveal_strlit("DELETE");
    reveal_strlit("DOWN");
    reveal_strlit("END");
    reveal_strlit("ENTER");
    reveal_strlit("ESC");
    reveal_strlit("ESCAPE");
    reveal_strlit("F1");
    reveal_strlit("F10");
    reveal_strlit("F11");
    reveal_strlit("F12");
    reveal_strlit("F2");
    reveal_strlit("F3");
    reveal_strlit("F4");
    reveal_strlit("F5");
    reveal_strlit("F6");
    reveal_strlit("F7");
    reveal_strlit("F8");
    reveal_strlit("F9");
    reveal_strlit("HOME");
    reveal_strlit("INSERT");
    reveal_strlit("LEFT");
    reveal_strlit("NUM0");
    reveal_strlit("NUM1");
    reveal_strlit("NUM2");
    reveal_strlit("NUM3");
    reveal_strlit("NUM4");
    reveal_strlit("NUM5");
    reveal_strlit("NUM6");
    reveal_strlit("NUM7");
    reveal_strlit("NUM8");
    reveal_strlit("NUM9");
    reveal_strlit("NUMLOCK");
    reveal_strlit("Num4");
    reveal_strlit("Num5");
    reveal_strlit("Num6");
    reveal_strlit("Num7");
    reveal_strlit("Num8");
    reveal_strlit("Num9");
    reveal_strlit("PAGEDOWN");
    reveal_strlit("PAGEUP");
    reveal_strlit("PAUSE");
    reveal_strlit("PRINTSCREEN");
    reveal_strlit("PRTSC");
    reveal_strlit("RIGHT");
    reveal_strlit("SCROLLLOCK");
    reveal_strlit("SHIFT");
    reveal_strlit("SPACE");
    reveal_strlit("TAB");
    reveal_strlit("UP");
    lemma_seqs_differ("NUM4"@, "CAPS"@, 0);
    lemma_seqs_differ("NUM4"@, "HOME"@, 0);
    lemma_seqs_differ("NUM4"@, "DOWN"@, 0);
    lemma_seqs_differ("NUM4"@, "LEFT"@, 0);
    lemma_seqs_differ("NUM4"@, "NUM0"@, 3);
    lemma_seqs_differ("NUM4"@, "NUM1"@, 3);
    lemma_seqs_differ("NUM4"@, "NUM2"@, 3);
    lemma_seqs_differ("NUM4"@, "NUM3"@, 3);
    lemma_seqs_differ("NUM4"@, "CTRL"@, 0);
    assert(upper_seq("Num4"@) =~= "NUM4"@);
    lemma_stable_name("Num4"@, "NUM4"@, ksv(Key::Kp4, "Num4"@, false));
    lemma_seqs_differ("NUM5"@, "CAPS"@, 0);
    lemma_seqs_differ("NUM5"@, "HOME"@, 0);
    lemma_seqs_differ("NUM5"@, "DOWN"@, 0);
    lemma_seqs_differ("NUM5"@, "LEFT"@, 0);
    lemma_seqs_differ("NUM5"@, "NUM0"@, 3);
    lemma_seqs_differ("NUM5"@, "NUM1"@, 3);
    lemma_seqs_differ("NUM5"@, "NUM2"@, 3);
    lemma_seqs_differ("NUM5"@, "NUM3"@, 3);
    lemma_seqs_differ("NUM5"@, "NUM4"@, 3);
    lemma_seqs_differ("NUM5"@, "CTRL"@, 0);
    assert(upper_seq("Num5"@) =~= "NUM5"@);
    lemma_stable_name("Num5"@, "NUM5"@, ksv(Key::Kp5, "Num5"@, false));
    lemma_seqs_differ("NUM6"@, "CAPS"@, 0);
    lemma_seqs_differ("NUM6"@, "HOME"@, 0);
    lemma_seqs_differ("NUM6"@, "DOWN"@, 0);
    lemma_seqs_differ("NUM6"@, "LEFT"@, 0);
    lemma_seqs_differ("NUM6"@, "NUM0"@, 3);
    lemma_seqs_differ("NUM6"@, "NUM1"@, 3);
    lemma_seqs_differ("NUM6"@, "NUM2"@, 3);
    lemma_seqs_differ("NUM6"@, "NUM3"@, 3);
    lemma_seqs_differ("NUM6"@, "NUM4"@, 3);
    lemma_seqs_differ("NUM6"@, "NUM5"@, 3);
    lemma_seqs_differ("NUM6"@, "CTRL"@, 0);
    assert(upper_seq("Num6"@) =~= "NUM6"@);
    lemma_stable_name("Num6"@, "NUM6"@, ksv(Key::Kp6, "Num6"@, false));
    lemma_seqs_differ("NUM7"@, "CAPS"@, 0);
    lemma_seqs_differ("NUM7"@, "HOME"@, 0);
    lemma_seqs_differ("NUM7"@, "DOWN"@, 0);
    lemma_seqs_differ("NUM7"@, "LEFT"@, 0);
    lemma_seqs_differ("NUM7"@, "NUM0"@, 3);
    lemma_seqs_differ("NUM7"@, "NUM1"@, 3);
    lemma_seqs_differ("NUM7"@, "NUM2"@, 3);
    lemma_seqs_differ("NUM7"@, "NUM3"@, 3);
    lemma_seqs_differ("NUM7"@, "NUM4"@, 3);
    lemma_seqs_differ("NUM7"@, "NUM5"@, 3);
    lemma_seqs_differ("NUM7"@, "NUM6"@, 3);
    lemma_seqs_differ("NUM7"@, "CTRL"@, 0);
    assert(upper_seq("Num7"@) =~= "NUM7"@);
    lemma_stable_name("Num7"@, "NUM7"@, ksv(Key::Kp7, "Num7"@, false));
    lemma_seqs_differ("NUM8"@, "CAPS"@, 0);
    lemma_seqs_differ("NUM8"@, "HOME"@, 0);
    lemma_seqs_differ("NUM8"@, "DOWN"@, 0);
    lemma_seqs_differ("NUM8"@, "LEFT"@, 0);
    lemma_seqs_differ("NUM8"@, "NUM0"@, 3);
    lemma_seqs_differ("NUM8"@, "NUM1"@, 3);
    lemma_seqs_differ("NUM8"@, "NUM2"@, 3);
    lemma_seqs_differ("NUM8"@, "NUM3"@, 3);
    lemma_seqs_differ("NUM8"@, "NUM4"@, 3);
    lemma_seqs_differ("NUM8"@, "NUM5"@, 3);
    lemma_seqs_differ("NUM8"@, "NUM6"@, 3);
    lemma_seqs_differ("NUM8"@, "NUM7"@, 3);
    lemma_seqs_differ("NUM8"@, "CTRL"@, 0);
    assert(upper_seq("Num8"@) =~= "NUM8"@);
    lemma_stable_name("Num8"@, "NUM8"@, ksv(Key::Kp8, "Num8"@, false));
    lemma_seqs_differ("NUM9"@, "CAPS"@, 0);
    lemma_seqs_differ("NUM9"@, "HOME"@, 0);
    lemma_seqs_differ("NUM9"@, "DOWN"@, 0);
    lemma_seqs_differ("NUM9"@, "LEFT"@, 0);
    lemma_seqs_differ("NUM9"@, "NUM0"@, 3);
    lemma_seqs_differ("NUM9"@, "NUM1"@, 3);
    lemma_seqs_differ("NUM9"@, "NUM2"@, 3);
    lemma_seqs_differ("NUM9"@, "NUM3"@, 3);
    lemma_seqs_differ("NUM9"@, "NUM4"@, 3);
    lemma_seqs_differ("NUM9"@, "NUM5"@, 3);
    lemma_seqs_differ("NUM9"@, "NUM6"@, 3);
    lemma_seqs_differ("NUM9"@, "NUM7"@, 3);
    lemma_seqs_differ("NUM9"@, "NUM8"@, 3);
    lemma_seqs_differ("NUM9"@, "CTRL"@, 0);
    assert(upper_seq("Num9"@) =~= "NUM9"@);
    lemma_stable_name("Num9"@, "NUM9"@, ksv(Key::Kp9, "Num9"@, false));
}

/// Every named key reads back as itself.
proof fn lemma_named_keys_stable(u: Seq<char>)
    requires
        named_key(u) is Some,
    ensures
        stable_key(named_key(u)->0),
{
    lemma_keys_f1_to_f6_stable();
    lemma_keys_f7_to_f12_stable();
    lemma_lock_and_space_keys_stable();
    lemma_edit_keys_stable();
    lemma_page_and_arrow_keys_stable();
    lemma_print_pause_and_low_keypad_keys_stable();
    lemma_high_keypad_keys_stable();
}


/// Every single-character key reads back as itself.
proof fn lemma_single_key_stable(c: char)
    requires
        (c as u32) < 128,
        single_char_key(c) is Some,
    ensures
        stable_key(single_char_key(c)->0),
{
    reveal(stable_key);
    reveal_strlit("`");
    reveal_strlit("-");
    reveal_strlit("=");
    reveal_strlit("[");
    reveal_strlit("]");
    reveal_strlit("\\");
    reveal_strlit(";");
    reveal_strlit("\'");
    reveal_strlit(",");
    reveal_strlit(".");
    reveal_strlit("/");
    reveal_strlit("CTRL");
    reveal_strlit("CONTROL");
    reveal_strlit("ALT");
    reveal_strlit("SHIFT");
    let k = single_char_key(c)->0;
    let n = k.normalized;
    assert(n.len() == 1);
    let d = n[0];
    assert(n =~= seq![d]);
    assert(upper_seq(n).len() == 1);
    lemma_named_key_short(upper_seq(n));
    assert(trim_start(n) == n);
    assert(trim_end(n) == n);
    assert(single_char_key(d) == Some(k));
}

/// Every key that a key name denotes reads back as itself.
proof fn lemma_parsed_key_stable(name: Seq<char>)
    requires
        parse_key_spec_spec(name) is Some,
    ensures
        stable_key(parse_key_spec_spec(name)->0),
{
    let t = trim(name);
    if named_key(upper_seq(t)) is Some {
        lemma_named_keys_stable(upper_seq(t));
    } else {
        lemma_single_key_stable(t[0]);
    }
}

/// The modifier parts of a normalized hotkey name, in the order Ctrl, Alt,
/// Shift.
pub open spec fn modifier_parts(m: u8) -> Seq<Seq<char>> {
    (if m & MOD_CTRL != 0 {
        seq!["Ctrl"@]
    } else {
        Seq::<Seq<char>>::empty()
    }) + (if m & MOD_ALT != 0 {
        seq!["Alt"@]
    } else {
        Seq::<Seq<char>>::empty()
    }) + (if m & MOD_SHIFT != 0 {
        seq!["Shift"@]
    } else {
        Seq::<Seq<char>>::empty()
    })
}

/// Gathering the parts of a valid hotkey keeps the modifiers among Ctrl,
/// Alt and Shift and finds a trigger key that reads back as itself.
proof fn lemma_fold_stable(parts: Seq<Seq<char>>, i: int, mods: u8, trig: Option<KeySpecView>)
    requires
        0 <= i,
        mods <= 7,
        trig matches Some(t) ==> stable_key(t),
        fold_parts(parts, i, mods, trig) is Ok,
    ensures
        fold_parts(parts, i, mods, trig) matches Ok((m, tr)) && m <= 7 && (tr matches Some(t)
            ==> stable_key(t)),
    decreases parts.len() - i,
{
    if i < parts.len() {
        let u = upper_seq(parts[i]);
        assert(mods <= 7 ==> (mods | 1u8) <= 7 && (mods | 2u8) <= 7 && (mods | 4u8) <= 7)
            by (bit_vector);
        if u == "CTRL"@ || u == "CONTROL"@ {
            lemma_fold_stable(parts, i + 1, mods | MOD_CTRL, trig);
        } else if u == "ALT"@ {
            lemma_fold_stable(parts, i + 1, mods | MOD_ALT, trig);
        } else if u == "SHIFT"@ {
            lemma_fold_stable(parts, i + 1, mods | MOD_SHIFT, trig);
        } else if trig is None {
            lemma_parsed_key_stable(parts[i]);
            lemma_fold_stable(parts, i + 1, mods, parse_key_spec_spec(parts[i]));
        }
    }
}

proof fn lemma_parts_after_word(w: Seq<char>, rest: Seq<char>)
    requires
        w.len() > 0,
        !is_ws(w[0]),
        !is_ws(w.last()),
        forall|i: int| 0 <= i < w.len() ==> w[i] != '+',
    ensures
        parts_from(w + seq!['+'] + rest, Seq::<char>::empty()) == seq![w] + parts_from(
            rest,
            Seq::<char>::empty(),
        ),
{
    let tail = seq!['+'] + rest;
    assert(w + seq!['+'] + rest =~= w + tail);
    lemma_parts_from_run(w, tail, Seq::<char>::empty());
    assert(Seq::<char>::empty() + w =~= w);
    assert(tail[0] == '+');
    assert(tail.drop_first() =~= rest);
    lemma_keep_trimmed(w);
}

proof fn lemma_parts_single(n: Seq<char>)
    requires
        n.len() > 0,
        !is_ws(n[0]),
        !is_ws(n.last()),
        forall|i: int| 0 <= i < n.len() ==> n[i] != '+',
    ensures
        parts_from(n, Seq::<char>::empty()) == seq![n],
{
    lemma_parts_from_run(n, Seq::<char>::empty(), Seq::<char>::empty());
    assert(n + Seq::<char>::empty() =~= n);
    assert(Seq::<char>::empty() + n =~= n);
    lemma_keep_trimmed(n);
}

/// The parts of a normalized hotkey name: its modifiers, then its key name.
proof fn lemma_name_parts(m: u8, n: Seq<char>)
    requires
        n.len() > 0,
        !is_ws(n[0]),
        !is_ws(n.last()),
        forall|i: int| 0 <= i < n.len() ==> n[i] != '+',
    ensures
        hotkey_parts(hotkey_name(m, n)) == modifier_parts(m) + seq![n],
{
    reveal_strlit("Ctrl+");
    reveal_strlit("Alt+");
    reveal_strlit("Shift+");
    reveal_strlit("Ctrl");
    reveal_strlit("Alt");
    reveal_strlit("Shift");
    let e = Seq::<char>::empty();
    let a = if m & MOD_CTRL != 0 { "Ctrl+"@ } else { e };
    let b = if m & MOD_ALT != 0 { "Alt+"@ } else { e };
    let c = if m & MOD_SHIFT != 0 { "Shift+"@ } else { e };
    assert(hotkey_name(m, n) =~= a + (b + (c + n)));
    assert("Ctrl+"@ =~= "Ctrl"@ + seq!['+']);
    assert("Alt+"@ =~= "Alt"@ + seq!['+']);
    assert("Shift+"@ =~= "Shift"@ + seq!['+']);
    lemma_parts_single(n);
    let p3 = parts_from(c + n, e);
    if m & MOD_SHIFT != 0 {
        lemma_parts_after_word("Shift"@, n);
        assert(c + n =~= "Shift"@ + seq!['+'] + n);
    } else {
        assert(c + n =~= n);
    }
    let p2 = parts_from(b + (c + n), e);
    if m & MOD_ALT != 0 {
        lemma_parts_after_word("Alt"@, c + n);
        assert(b + (c + n) =~= "Alt"@ + seq!['+'] + (c + n));
    } else {
        assert(b + (c + n) =~= c + n);
    }
    if m & MOD_CTRL != 0 {
        lemma_parts_after_word("Ctrl"@, b + (c + n));
        assert(a + (b + (c + n)) =~= "Ctrl"@ + seq!['+'] + (b + (c + n)));
    } else {
        assert(a + (b + (c + n)) =~= b + (c + n));
    }
    let s1 = if m & MOD_CTRL != 0 { seq!["Ctrl"@] } else { Seq::<Seq<char>>::empty() };
    let s2 = if m & MOD_ALT != 0 { seq!["Alt"@] } else { Seq::<Seq<char>>::empty() };
    let s3 = if m & MOD_SHIFT != 0 { seq!["Shift"@] } else { Seq::<Seq<char>>::empty() };
    assert(p3 =~= s3 + seq![n]);
    assert(p2 =~= s2 + (s3 + seq![n]));
    assert(modifier_parts(m) + seq![n] =~= s1 + (s2 + (s3 + seq![n])));
}

proof fn lemma_fold_step_ctrl(ps: Seq<Seq<char>>, i: int, mods: u8, trig: Option<KeySpecView>)
    requires
        0 <= i < ps.len(),
        ps[i] == "Ctrl"@,
        mods & MOD_CTRL == 0,
    ensures
        fold_parts(ps, i, mods, trig) == fold_parts(ps, i + 1, mods | MOD_CTRL, trig),
{
    reveal_strlit("Ctrl");
    reveal_strlit("CTRL");
    assert(upper_seq("Ctrl"@) =~= "CTRL"@);
}

proof fn lemma_fold_step_alt(ps: Seq<Seq<char>>, i: int, mods: u8, trig: Option<KeySpecView>)
    requires
        0 <= i < ps.len(),
        ps[i] == "Alt"@,
        mods & MOD_ALT == 0,
    ensures
        fold_parts(ps, i, mods, trig) == fold_parts(ps, i + 1, mods | MOD_ALT, trig),
{
    reveal_strlit("Alt");
    reveal_strlit("ALT");
    reveal_strlit("CTRL");
    reveal_strlit("CONTROL");
    assert(upper_seq("Alt"@) =~= "ALT"@);
}

proof fn lemma_fold_step_shift(ps: Seq<Seq<char>>, i: int, mods: u8, trig: Option<KeySpecView>)
    requires
        0 <= i < ps.len(),
        ps[i] == "Shift"@,
        mods & MOD_SHIFT == 0,
    ensures
        fold_parts(ps, i, mods, trig) == fold_parts(ps, i + 1, mods | MOD_SHIFT, trig),
{
    reveal_strlit("Shift");
    reveal_strlit("SHIFT");
    reveal_strlit("ALT");
    reveal_strlit("CTRL");
    reveal_strlit("CONTROL");
    assert(upper_seq("Shift"@) =~= "SHIFT"@);
}

proof fn lemma_fold_step_key(ps: Seq<Seq<char>>, i: int, mods: u8, t: KeySpecView)
    requires
        0 <= i,
        i == ps.len() - 1,
        ps[i] == t.normalized,
        stable_key(t),
    ensures
        fold_parts(ps, i, mods, None) == Ok::<(u8, Option<KeySpecView>), Seq<char>>((mods, Some(t))),
{
    reveal(stable_key);
    assert(fold_parts(ps, i + 1, mods, Some(t)) == Ok::<(u8, Option<KeySpecView>), Seq<char>>(
        (mods, Some(t)),
    ));
}

/// Gathering the parts of a normalized name gives back its modifiers and
/// its key.
#[verifier::spinoff_prover]
proof fn lemma_fold_normalized(m: u8, t: KeySpecView)
    requires
        m <= 7,
        stable_key(t),
    ensures
        fold_parts(modifier_parts(m) + seq![t.normalized], 0, 0, None) == Ok::<
            (u8, Option<KeySpecView>),
            Seq<char>,
        >((m, Some(t))),
{
    assert(0u8 & 1u8 == 0 && 0u8 & 2u8 == 0 && 1u8 & 2u8 == 0 && 0u8 & 4u8 == 0 && 1u8 & 4u8 == 0
        && 2u8 & 4u8 == 0 && 3u8 & 4u8 == 0 && 0u8 | 1u8 == 1 && 0u8 | 2u8 == 2 && 1u8 | 2u8 == 3
        && 0u8 | 4u8 == 4 && 1u8 | 4u8 == 5 && 2u8 | 4u8 == 6 && 3u8 | 4u8 == 7) by (bit_vector);
    assert(m <= 7 ==> ((m & 1u8 != 0) == (m == 1 || m == 3 || m == 5 || m == 7)) && ((m & 2u8 != 0)
        == (m == 2 || m == 3 || m == 6 || m == 7)) && ((m & 4u8 != 0) == (m == 4 || m == 5 || m
        == 6 || m == 7))) by (bit_vector);
    let n = t.normalized;
    let ps = modifier_parts(m) + seq![n];
    if m == 0 {
        assert(ps =~= seq![n]);
        lemma_fold_step_key(ps, 0, 0, t);
    } else if m == 1 {
        assert(ps =~= seq!["Ctrl"@, n]);
        lemma_fold_step_ctrl(ps, 0, 0, None);
        lemma_fold_step_key(ps, 1, 1, t);
    } else if m == 2 {
        assert(ps =~= seq!["Alt"@, n]);
        lemma_fold_step_alt(ps, 0, 0, None);
        lemma_fold_step_key(ps, 1, 2, t);
    } else if m == 3 {
        assert(ps =~= seq!["Ctrl"@, "Alt"@, n]);
        lemma_fold_step_ctrl(ps, 0, 0, None);
        lemma_fold_step_alt(ps, 1, 1, None);
        lemma_fold_step_key(ps, 2, 3, t);
    } else if m == 4 {
        assert(ps =~= seq!["Shift"@, n]);
        lemma_fold_step_shift(ps, 0, 0, None);
        lemma_fold_step_key(ps, 1, 4, t);
    } else if m == 5 {
        assert(ps =~= seq!["Ctrl"@, "Shift"@, n]);
        lemma_fold_step_ctrl(ps, 0, 0, None);
        lemma_fold_step_shift(ps, 1, 1, None);
        lemma_fold_step_key(ps, 2, 5, t);
    } else if m == 6 {
        assert(ps =~= seq!["Alt"@, "Shift"@, n]);
        lemma_fold_step_alt(ps, 0, 0, None);
        lemma_fold_step_shift(ps, 1, 2, None);
        lemma_fold_step_key(ps, 2, 6, t);
    } else {
        assert(ps =~= seq!["Ctrl"@, "Alt"@, "Shift"@, n]);
        lemma_fold_step_ctrl(ps, 0, 0, None);
        lemma_fold_step_alt(ps, 1, 1, None);
        lemma_fold_step_shift(ps, 2, 3, None);
        lemma_fold_step_key(ps, 3, 7, t);
    }
}

/// Normalization is stable: validating the normalized name of a valid
/// hotkey accepts it again, with the same name and combination, so a
/// hotkey saved in normalized form passes the check at startup unchanged.
pub proof fn lemma_normalized_hotkey_is_stable(name: Seq<char>)
    requires
        validate_spec(name) is Ok,
    ensures
        validate_spec(validate_spec(name)->Ok_0.0) == validate_spec(name),
{
    let parts = hotkey_parts(name);
    lemma_fold_stable(parts, 0, 0, None);
    let m = fold_parts(parts, 0, 0, None)->Ok_0.0;
    let t = fold_parts(parts, 0, 0, None)->Ok_0.1->0;
    reveal(stable_key);
    lemma_name_parts(m, t.normalized);
    lemma_fold_normalized(m, t);
}

// ── The default hotkey ──

/// Reading a run without `+` extends the current part.
pub proof fn lemma_parts_from_run(x: Seq<char>, rest: Seq<char>, cur: Seq<char>)
    requires
        forall|i: int| 0 <= i < x.len() ==> x[i] != '+',
    ensures
        parts_from(x + rest, cur) == parts_from(rest, cur + x),
    decreases x.len(),
{
    if x.len() == 0 {
        assert(x + rest =~= rest);
        assert(cur + x =~= cur);
    } else {
        assert((x + rest).drop_first() =~= x.drop_first() + rest);
        assert((x + rest)[0] == x[0]);
        lemma_parts_from_run(x.drop_first(), rest, cur.push(x[0]));
        assert(cur.push(x[0]) + x.drop_first() =~= cur + x);
    }
}

/// A part whose first and last characters are not whitespace is kept as is.
pub proof fn lemma_keep_trimmed(p: Seq<char>)
    requires
        p.len() > 0,
        !is_ws(p[0]),
        !is_ws(p.last()),
    ensures
        keep_part(p) == seq![p],
{
    assert(trim_start(p) == p);
    assert(trim_end(p) == p);
}

proof fn lemma_named_key_short(u: Seq<char>)
    requires
        u.len() == 1,
    ensures
        named_key(u) is None,
{
    reveal_strlit("BACKSPACE");
    reveal_strlit("CAPS");
    reveal_strlit("CAPSLOCK");
    reveal_strlit("DELETE");
    reveal_strlit("DOWN");
    reveal_strlit("END");
    reveal_strlit("ENTER");
    reveal_strlit("ESC");
    reveal_strlit("ESCAPE");
    reveal_strlit("F1");
    reveal_strlit("F10");
    reveal_strlit("F11");
    reveal_strlit("F12");
    reveal_strlit("F2");
    reveal_strlit("F3");
    reveal_strlit("F4");
    reveal_strlit("F5");
    reveal_strlit("F6");
    reveal_strlit("F7");
    reveal_strlit("F8");
    reveal_strlit("F9");
    reveal_strlit("HOME");
    reveal_strlit("INSERT");
    reveal_strlit("LEFT");
    reveal_strlit("NUM0");
    reveal_strlit("NUM1");
    reveal_strlit("NUM2");
    reveal_strlit("NUM3");
    reveal_strlit("NUM4");
    reveal_strlit("NUM5");
    reveal_strlit("NUM6");
    reveal_strlit("NUM7");
    reveal_strlit("NUM8");
    reveal_strlit("NUM9");
    reveal_strlit("NUMLOCK");
    reveal_strlit("PAGEDOWN");
    reveal_strlit("PAGEUP");
    reveal_strlit("PAUSE");
    reveal_strlit("PRINTSCREEN");
    reveal_strlit("PRTSC");
    reveal_strlit("RIGHT");
    reveal_strlit("SCROLLLOCK");
    reveal_strlit("SPACE");
    reveal_strlit("TAB");
    reveal_strlit("UP");
}

/// The default hotkey is valid and already normalized.
pub proof fn lemma_default_hotkey_valid()
    ensures
        validate_spec("Ctrl+Shift+V"@) == Ok::<(Seq<char>, HotkeyCombo), Seq<char>>(
            ("Ctrl+Shift+V"@, HotkeyCombo { modifiers: 5, key: Key::KeyV }),
        ),
{
    reveal_strlit("Ctrl+Shift+V");
    reveal_strlit("Ctrl");
    reveal_strlit("Shift");
    reveal_strlit("V");
    reveal_strlit("+");
    reveal_strlit("CTRL");
    reveal_strlit("CONTROL");
    reveal_strlit("ALT");
    reveal_strlit("SHIFT");
    reveal_strlit("Ctrl+");
    reveal_strlit("Shift+");
    reveal_strlit("Ctrl+C");
    reveal_strlit("Ctrl+V");
    reveal_strlit("Ctrl+X");
    reveal_strlit("Ctrl+Z");
    reveal_strlit("Ctrl+A");
    reveal_strlit("Ctrl+S");
    reveal_strlit("Ctrl+W");
    reveal_strlit("Ctrl+T");
    reveal_strlit("Ctrl+N");
    reveal_strlit("Ctrl+P");
    reveal_strlit("Ctrl+F");
    reveal_strlit("Ctrl+H");
    reveal_strlit("Alt+F4");
    reveal_strlit("Alt+Tab");
    let s = "Ctrl+Shift+V"@;
    let ctrl = "Ctrl"@;
    let shift = "Shift"@;
    let v = "V"@;
    let plus = "+"@;
    let e = Seq::<char>::empty();
    assert(s =~= ctrl + (plus + (shift + (plus + (v + e)))));
    lemma_parts_from_run(ctrl, plus + (shift + (plus + (v + e))), e);
    assert(e + ctrl =~= ctrl);
    assert((plus + (shift + (plus + (v + e)))).drop_first() =~= shift + (plus + (v + e)));
    lemma_parts_from_run(shift, plus + (v + e), e);
    assert(e + shift =~= shift);
    assert((plus + (v + e)).drop_first() =~= v + e);
    lemma_parts_from_run(v, e, e);
    assert(e + v =~= v);
    lemma_keep_trimmed(ctrl);
    lemma_keep_trimmed(shift);
    lemma_keep_trimmed(v);
    let parts = hotkey_parts(s);
    assert(parts =~= seq![ctrl, shift, v]);
    assert(upper_seq(ctrl) =~= "CTRL"@);
    assert(upper_seq(shift) =~= "SHIFT"@);
    assert(upper_seq(v) =~= "V"@);
    assert(trim(v) == v) by {
        lemma_keep_trimmed(v);
    }
    lemma_named_key_short(upper_seq(v));
    assert(ascii_upper('V') == 'V');
    assert(char_key('V') == Some(Key::KeyV));
    assert(parse_key_spec_spec(v) == Some(ksv(Key::KeyV, seq!['V'], false)));
    assert(0u8 & MOD_CTRL == 0 && (0u8 | MOD_CTRL) == 1u8 && 1u8 & MOD_SHIFT == 0 && (1u8
        | MOD_SHIFT) == 5u8 && 5u8 & MOD_CTRL != 0 && 5u8 & MOD_ALT == 0 && 5u8 & MOD_SHIFT != 0)
        by (bit_vector);
    let t = ksv(Key::KeyV, seq!['V'], false);
    assert(fold_parts(parts, 3, 5, Some(t)) == Ok::<(u8, Option<KeySpecView>), Seq<char>>((5u8, Some(t))));
    assert(fold_parts(parts, 2, 5, None) == Ok::<(u8, Option<KeySpecView>), Seq<char>>((5u8, Some(t))));
    assert(fold_parts(parts, 1, 1, None) == Ok::<(u8, Option<KeySpecView>), Seq<char>>((5u8, Some(t))));
    assert(fold_parts(parts, 0, 0, None) == Ok::<(u8, Option<KeySpecView>), Seq<char>>((5u8, Some(t))));
    assert(hotkey_name(5, seq!['V']) =~= s);
    assert(!is_reserved_combo(s));
}

} // verus!
