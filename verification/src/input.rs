//! Delivering text to the focused window: the output modes, what each mode
//! does with the clipboard, and the text that simulated typing sends.
use vstd::prelude::*;
use crate::text::{chars_of, push_char, str_eq};

verus! {

/// How transcribed text reaches the active input field.
#[derive(Debug, Clone, Copy, PartialEq, Eq)]
pub enum OutputMode {
    /// Put it on the clipboard and press Ctrl+V.
    Paste,
    /// Simulate Unicode key strokes.
    Type,
    /// Leave it in the application window.
    NoOutput,
}

impl OutputMode {
    /// `"paste"`, `"type"`, anything else is `NoOutput`.
    pub fn from_str(s: &str) -> (m: Self)
        ensures
            m == if s@ == "paste"@ {
                OutputMode::Paste
            } else if s@ == "type"@ {
                OutputMode::Type
            } else {
                OutputMode::NoOutput
            },
    {
        if str_eq(s, "paste") {
            OutputMode::Paste
        } else if str_eq(s, "type") {
            OutputMode::Type
        } else {
            OutputMode::NoOutput
        }
    }
}

/// The label of a mode in the activity log.
pub fn output_mode_label(mode: OutputMode) -> (l: &'static str)
    ensures
        l@ == match mode {
            OutputMode::Paste => "粘贴"@,
            OutputMode::Type => "模拟输入"@,
            OutputMode::NoOutput => "仅保留应用内"@,
        },
{
    match mode {
        OutputMode::Paste => "粘贴",
        OutputMode::Type => "模拟输入",
        OutputMode::NoOutput => "仅保留应用内",
    }
}

/// What sending a text does.
#[derive(Debug, Clone, PartialEq, Eq)]
pub enum OutputAction {
    /// Nothing (empty text, or no output and no clipboard copy).
    Nothing,
    /// Paste through the clipboard; `restore` puts the previous clipboard
    /// content back afterwards.
    Paste { restore: bool },
    /// Type the (sanitized) text, then copy the original to the clipboard
    /// if asked.
    Type { typed: String, copy: bool },
    /// Only copy the text to the clipboard.
    CopyOnly,
}

/// The general category Cc (`char::is_control`): U+0000–U+001F and
/// U+007F–U+009F.
pub open spec fn is_control(c: char) -> bool {
    (c as u32) <= 0x1f || (0x7f <= (c as u32) && (c as u32) <= 0x9f)
}

/// The text simulated typing sends: line breaks become spaces (a typed
/// newline would press Enter) and other control characters but tab are
/// dropped.
pub open spec fn typed_text(s: Seq<char>) -> Seq<char>
    decreases s.len(),
{
    if s.len() == 0 {
        Seq::empty()
    } else {
        let c = s.last();
        typed_text(s.drop_last()) + if c == '\n' || c == '\r' {
            seq![' ']
        } else if is_control(c) && c != '\t' {
            Seq::empty()
        } else {
            seq![c]
        }
    }
}

/// Simulated typing never presses Enter or sends a control key: the typed
/// text holds no control character other than tab, and typing it as is
/// sends it unchanged.
pub proof fn lemma_typed_text_clean(s: Seq<char>)
    ensures
        forall|i: int| 0 <= i < typed_text(s).len() ==> (!is_control(#[trigger] typed_text(s)[i]) || typed_text(s)[i] == '\t'),
        typed_text(typed_text(s)) == typed_text(s),
    decreases s.len(),
{
    if s.len() > 0 {
        let rest = s.drop_last();
        lemma_typed_text_clean(rest);
        let t = typed_text(rest);
        let c = s.last();
        let add = if c == '\n' || c == '\r' {
            seq![' ']
        } else if is_control(c) && c != '\t' {
            Seq::<char>::empty()
        } else {
            seq![c]
        };
        assert(typed_text(s) == t + add);
        assert forall|i: int| 0 <= i < typed_text(s).len() implies (!is_control(#[trigger] typed_text(s)[i])
            || typed_text(s)[i] == '\t') by {
            if i < t.len() {
                assert(typed_text(s)[i] == t[i]);
            } else {
                assert(typed_text(s)[i] == add[i - t.len()]);
            }
        }
        lemma_typed_text_append(t, add);
        if add.len() == 1 {
            assert(add =~= seq![add[0]]);
            assert(typed_text(add) == typed_text(Seq::<char>::empty()) + seq![add[0]]) by {
                assert(add.drop_last() =~= Seq::<char>::empty());
            }
            assert(typed_text(add) =~= add);
        } else {
            assert(add =~= Seq::<char>::empty());
        }
    }
}

/// Typing a concatenation types each part in turn.
proof fn lemma_typed_text_append(a: Seq<char>, b: Seq<char>)
    ensures
        typed_text(a + b) == typed_text(a) + typed_text(b),
    decreases b.len(),
{
    if b.len() == 0 {
        assert(a + b =~= a);
        assert(typed_text(a) + Seq::<char>::empty() =~= typed_text(a));
    } else {
        lemma_typed_text_append(a, b.drop_last());
        assert((a + b).drop_last() =~= a + b.drop_last());
        assert((a + b).last() == b.last());
        let c = b.last();
        let add = if c == '\n' || c == '\r' {
            seq![' ']
        } else if is_control(c) && c != '\t' {
            Seq::<char>::empty()
        } else {
            seq![c]
        };
        assert(typed_text(a) + typed_text(b.drop_last()) + add =~= typed_text(a) + (typed_text(b.drop_last()) + add));
    }
}

/// Sanitizes a text for simulated typing (see [`typed_text`]).
pub fn sanitize_for_typing(text: &str) -> (r: String)
    ensures
        r@ == typed_text(text@),
{
    let v = chars_of(text);
    let mut r = String::new();
    let mut i: usize = 0;
    while i < v.len()
        invariant
            i <= v@.len(),
            v@ == text@,
            r@ == typed_text(v@.take(i as int)),
        decreases v@.len() - i,
    {
        let c = v[i];
        assert(v@.take((i + 1) as int).drop_last() =~= v@.take(i as int));
        let n = c as u32;
        if c == '\n' || c == '\r' {
            push_char(&mut r, ' ');
        } else if (n <= 0x1f || (0x7f <= n && n <= 0x9f)) && c != '\t' {
            assert(r@ + Seq::<char>::empty() =~= r@);
        } else {
            push_char(&mut r, c);
        }
        i = i + 1;
    }
    assert(v@.take(i as int) =~= v@);
    r
}

/// What sending `text` in `mode` does.  Pasting restores the previous
/// clipboard only when the user does not want the text kept there.
pub fn send_text(text: &str, mode: OutputMode, copy_to_clipboard: bool, restore_clipboard: bool) -> (a: OutputAction)
    ensures
        text@.len() == 0 ==> a == OutputAction::Nothing,
        text@.len() > 0 ==> match mode {
            OutputMode::Paste => a == OutputAction::Paste {
                restore: !copy_to_clipboard && restore_clipboard,
            },
            OutputMode::Type => a matches OutputAction::Type { typed, copy } && typed@ == typed_text(
                text@,
            ) && copy == copy_to_clipboard,
            OutputMode::NoOutput => a == if copy_to_clipboard {
                OutputAction::CopyOnly
            } else {
                OutputAction::Nothing
            },
        },
{
    if text.is_empty() {
        return OutputAction::Nothing;
    }
    match mode {
        OutputMode::Paste => OutputAction::Paste { restore: !copy_to_clipboard && restore_clipboard },
        OutputMode::Type => OutputAction::Type {
            typed: sanitize_for_typing(text),
            copy: copy_to_clipboard,
        },
        OutputMode::NoOutput => if copy_to_clipboard {
            OutputAction::CopyOnly
        } else {
            OutputAction::Nothing
        },
    }
}

/// Images larger than this (about 10 MB of RGBA) are not saved for
/// restoring, so the paste is not delayed.
pub const MAX_IMAGE_RESTORE_BYTES: usize = 10485760;

/// What is kept of the clipboard before pasting.
#[derive(Debug, Clone, PartialEq, Eq)]
pub enum SavedClipboard {
    /// Its text, put back afterwards.
    Text(String),
    /// Its image, put back afterwards.
    Image,
    /// Nothing usable: clear the pasted text afterwards.
    ClearAfterPaste,
    /// Restoring is off.
    Skip,
}

/// Decides what to keep of the clipboard, given what reading its text and
/// its image returned (`None` when the read failed; the image by its byte
/// size).  A non-empty text wins; otherwise an image that is not too large.
pub fn choose_saved_clipboard(should_restore: bool, text: Option<String>, image_size: Option<usize>) -> (s: SavedClipboard)
    ensures
        !should_restore ==> s == SavedClipboard::Skip,
        should_restore ==> match text {
            Some(t) if t@.len() > 0 => s == SavedClipboard::Text(t),
            _ => s == if image_size matches Some(n) && n <= MAX_IMAGE_RESTORE_BYTES {
                SavedClipboard::Image
            } else {
                SavedClipboard::ClearAfterPaste
            },
        },
{
    if !should_restore {
        return SavedClipboard::Skip;
    }
    match text {
        Some(t) if !t.as_str().is_empty() => SavedClipboard::Text(t),
        _ => match image_size {
            Some(n) if n <= MAX_IMAGE_RESTORE_BYTES => SavedClipboard::Image,
            _ => SavedClipboard::ClearAfterPaste,
        },
    }
}

/// After pasting, the saved clipboard is put back only if the clipboard
/// still holds the pasted text (the user has not copied anything since).
pub fn should_restore_clipboard(current: Option<String>, pasted: &str) -> (b: bool)
    ensures
        b == (current matches Some(c) && c@ == pasted@),
{
    match current {
        Some(c) => str_eq(c.as_str(), pasted),
        None => false,
    }
}

} // verus!
