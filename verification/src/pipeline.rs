//! The text pipeline between recognition and output: filler cleaning,
//! replacement rules, the output decision and the checks on texts and
//! rules coming from the frontend.
use vstd::prelude::*;
use vstd::utf8::encode_utf8;
use crate::filler::{clean_pure_fillers, clean_spec};
use crate::input::{output_mode_label, OutputMode};
use crate::replacements::{
    apply_all, apply_replacements, apply_rule, ci_rule, insert_pos, nonempty_rules, ordered_rules, sort_desc,
    TextReplacement, TextReplacementsFile,
};
use crate::settings::AppSettings;
use crate::text::{chars_of, dec_seq, owned, push_str, replace_seq, str_eq, trim, trim_chars, u64_to_dec};

verus! {

/// Longest text (in UTF-8 bytes) accepted for output or for the history.
pub const MAX_TEXT_LEN: usize = 100000;

/// Most replacement rules that can be saved.
pub const MAX_REPLACEMENTS: usize = 200;

/// What is wrong with one rule, if anything.
pub open spec fn rule_error(r: TextReplacement) -> Option<Seq<char>> {
    if trim(r.from@).len() == 0 {
        Some("替换词的原文不能为空"@)
    } else if r.from@ == r.to@ {
        Some("替换词「"@ + r.from@ + "」的原文和替换内容相同"@)
    } else {
        None
    }
}

/// The error of the first faulty rule.
pub open spec fn first_rule_error(rs: Seq<TextReplacement>) -> Option<Seq<char>>
    decreases rs.len(),
{
    if rs.len() == 0 {
        None
    } else {
        match first_rule_error(rs.drop_last()) {
            Some(e) => Some(e),
            None => rule_error(rs.last()),
        }
    }
}

/// Saving rules fails when there are too many, or on the first rule with
/// a blank pattern or a pattern equal to its replacement.
pub open spec fn validate_replacements_spec(rs: Seq<TextReplacement>) -> Result<(), Seq<char>> {
    if rs.len() > MAX_REPLACEMENTS {
        Err("替换规则不能超过 200 条"@)
    } else {
        match first_rule_error(rs) {
            Some(e) => Err(e),
            None => Ok(()),
        }
    }
}

pub open spec fn result_view(r: Result<(), String>) -> Result<(), Seq<char>> {
    match r {
        Ok(()) => Ok(()),
        Err(e) => Err(e@),
    }
}

/// Checks replacement rules before they are saved.
pub fn validate_replacements(data: &TextReplacementsFile) -> (r: Result<(), String>)
    ensures
        result_view(r) == validate_replacements_spec(data.replacements@),
{
    let rs = data.replacements.as_slice();
    if rs.len() > MAX_REPLACEMENTS {
        return Err(owned("替换规则不能超过 200 条"));
    }
    let mut i: usize = 0;
    while i < rs.len()
        invariant
            i <= rs@.len(),
            rs@ == data.replacements@,
            rs@.len() <= MAX_REPLACEMENTS,
            first_rule_error(rs@.take(i as int)) is None,
        decreases rs@.len() - i,
    {
        assert(rs@.take((i + 1) as int).drop_last() =~= rs@.take(i as int));
        let from = chars_of(rs[i].from.as_str());
        let t = trim_chars(from.as_slice());
        if t.len() == 0 {
            assert(first_rule_error(rs@) == Some("替换词的原文不能为空"@)) by {
                lemma_first_error_prefix(rs@, i as int + 1);
            }
            return Err(owned("替换词的原文不能为空"));
        }
        if str_eq(rs[i].from.as_str(), rs[i].to.as_str()) {
            let mut e = owned("替换词「");
            push_str(&mut e, rs[i].from.as_str());
            push_str(&mut e, "」的原文和替换内容相同");
            assert(first_rule_error(rs@) == rule_error(rs@[i as int])) by {
                lemma_first_error_prefix(rs@, i as int + 1);
            }
            return Err(e);
        }
        i = i + 1;
    }
    assert(rs@.take(i as int) =~= rs@);
    Ok(())
}

/// Once a prefix holds an error, it is the first error of the whole list.
proof fn lemma_first_error_prefix(rs: Seq<TextReplacement>, n: int)
    requires
        0 <= n <= rs.len(),
        first_rule_error(rs.take(n)) is Some,
    ensures
        first_rule_error(rs) == first_rule_error(rs.take(n)),
    decreases rs.len() - n,
{
    if n < rs.len() {
        assert(rs.take(n + 1).drop_last() =~= rs.take(n));
        lemma_first_error_prefix(rs, n + 1);
    } else {
        assert(rs.take(n) =~= rs);
    }
}

/// The processed text and how it is output.
#[derive(Debug, Clone)]
pub struct ProcessedText {
    pub text: String,
    pub mode: OutputMode,
    pub copy_to_clipboard: bool,
    pub restore_clipboard: bool,
}

/// The text after the pipeline: filler cleaning when enabled (and not
/// after AI optimization, which already rewrote the text), then the
/// replacement rules when enabled and any exist.
pub open spec fn processed_spec(settings: AppSettings, rules: Seq<TextReplacement>, text: Seq<char>, has_ai_result: bool) -> Seq<char> {
    let t = if settings.filler_enabled && !has_ai_result {
        clean_spec(text)
    } else {
        text
    };
    if settings.replacement_enabled && rules.len() > 0 {
        apply_all(t, ordered_rules(rules), settings.replacement_ignore_case)
    } else {
        t
    }
}

/// The replacement step follows the user's case setting: with replacement
/// on, the rules apply, in their order, matched case-insensitively exactly
/// when `replacement_ignore_case` is set.  With a single rule and no filler
/// cleaning, the text becomes [`ci_rule`] of it when the setting is on
/// (so "call the api" with API → 接口 gives "call the 接口"), and
/// [`replace_seq`] (exact matching) when it is off.
pub proof fn lemma_pipeline_follows_case_setting(
    settings: AppSettings,
    rules: Seq<TextReplacement>,
    text: Seq<char>,
    has_ai_result: bool,
)
    ensures
        !(settings.replacement_enabled && rules.len() > 0) ==> processed_spec(settings, rules, text, has_ai_result)
            == if settings.filler_enabled && !has_ai_result {
            clean_spec(text)
        } else {
            text
        },
        settings.replacement_enabled && rules.len() > 0 ==> processed_spec(settings, rules, text, has_ai_result)
            == apply_all(
            if settings.filler_enabled && !has_ai_result {
                clean_spec(text)
            } else {
                text
            },
            ordered_rules(rules),
            settings.replacement_ignore_case,
        ),
        settings.replacement_enabled && (!settings.filler_enabled || has_ai_result) && rules.len() == 1
            && rules[0].from@.len() > 0 ==> processed_spec(settings, rules, text, has_ai_result) == if settings.replacement_ignore_case {
            ci_rule(text, rules[0].from@, rules[0].to@)
        } else {
            replace_seq(text, rules[0].from@, rules[0].to@)
        },
{
    if rules.len() == 1 && rules[0].from@.len() > 0 {
        let r = rules[0];
        assert(rules.drop_last() =~= Seq::<TextReplacement>::empty());
        assert(rules.last() == r);
        assert(nonempty_rules(rules.drop_last()) == Seq::<TextReplacement>::empty());
        assert(nonempty_rules(rules) =~= seq![r]);
        assert(seq![r].drop_last() =~= Seq::<TextReplacement>::empty());
        assert(sort_desc(seq![r].drop_last()) == Seq::<TextReplacement>::empty());
        assert(insert_pos(Seq::<TextReplacement>::empty(), r) == 0);
        assert(Seq::<TextReplacement>::empty().insert(0, r) =~= seq![r]);
        assert(sort_desc(seq![r]) =~= seq![r]);
        assert(apply_all(text, seq![r], settings.replacement_ignore_case) == apply_rule(
            apply_all(text, Seq::<TextReplacement>::empty(), settings.replacement_ignore_case),
            r,
            settings.replacement_ignore_case,
        ));
    }
}

/// Runs the text pipeline with the current settings and rules.
pub fn process_text(settings: &AppSettings, replacements: &TextReplacementsFile, text: String, has_ai_result: bool) -> (p: ProcessedText)
    ensures
        p.text@ == processed_spec(*settings, replacements.replacements@, text@, has_ai_result),
        p.mode == (if settings.output_mode@ == "paste"@ {
            OutputMode::Paste
        } else if settings.output_mode@ == "type"@ {
            OutputMode::Type
        } else {
            OutputMode::NoOutput
        }),
        p.copy_to_clipboard == settings.copy_to_clipboard,
        p.restore_clipboard == settings.paste_restore_clipboard,
{
    let mode = OutputMode::from_str(settings.output_mode.as_str());
    let text = if settings.filler_enabled && !has_ai_result {
        clean_pure_fillers(text.as_str())
    } else {
        text
    };
    let text = if settings.replacement_enabled && replacements.replacements.len() > 0 {
        apply_replacements(
            text.as_str(),
            replacements.replacements.as_slice(),
            settings.replacement_ignore_case,
        )
    } else {
        text
    };
    ProcessedText {
        text,
        mode,
        copy_to_clipboard: settings.copy_to_clipboard,
        restore_clipboard: settings.paste_restore_clipboard,
    }
}

/// A text from the frontend is accepted up to `MAX_TEXT_LEN` bytes.
pub fn text_within_limit(text: &str) -> (b: bool)
    ensures
        b == (encode_utf8(text@).len() as usize <= MAX_TEXT_LEN),
{
    text.len() <= MAX_TEXT_LEN
}

/// An AI-optimized text is stored only within the size limit.
pub fn check_optimized_text(optimized: &str) -> (r: Result<(), String>)
    ensures
        match r {
            Ok(()) => encode_utf8(optimized@).len() as usize <= MAX_TEXT_LEN,
            Err(e) => encode_utf8(optimized@).len() as usize > MAX_TEXT_LEN && e@ == "text_too_long"@,
        },
{
    if optimized.len() > MAX_TEXT_LEN {
        Err(owned("text_too_long"))
    } else {
        Ok(())
    }
}

/// Output happens for a non-empty text when a mode outputs or the text
/// goes to the clipboard.
pub fn should_output(text: &str, mode: OutputMode, copy_to_clipboard: bool) -> (b: bool)
    ensures
        b == ((mode != OutputMode::NoOutput || copy_to_clipboard) && text@.len() > 0),
{
    let outputs = match mode {
        OutputMode::NoOutput => false,
        _ => true,
    };
    (outputs || copy_to_clipboard) && !text.is_empty()
}

/// The activity-log line for an output, or `None` for a blank text.
pub fn output_log_message(processed: &str, mode: OutputMode, copy: bool, restore: bool) -> (m: Option<String>)
    ensures
        trim(processed@).len() == 0 ==> m is None,
        trim(processed@).len() > 0 ==> (m matches Some(s) && s@ == "已输出文字 ["@ + match mode {
            OutputMode::Paste => "粘贴"@,
            OutputMode::Type => "模拟输入"@,
            OutputMode::NoOutput => "仅保留应用内"@,
        } + "，"@ + dec_seq(processed@.len()) + " 字"@ + (if copy {
            if restore {
                "，已同步剪贴板并恢复"@
            } else {
                "，已同步剪贴板"@
            }
        } else {
            ""@
        }) + "]"@),
{
    let v = chars_of(processed);
    let t = trim_chars(v.as_slice());
    if t.len() == 0 {
        return None;
    }
    let mut m = owned("已输出文字 [");
    push_str(&mut m, output_mode_label(mode));
    push_str(&mut m, "，");
    let n = u64_to_dec(v.len() as u64);
    push_str(&mut m, n.as_str());
    push_str(&mut m, " 字");
    if copy {
        if restore {
            push_str(&mut m, "，已同步剪贴板并恢复");
        } else {
            push_str(&mut m, "，已同步剪贴板");
        }
    } else {
        push_str(&mut m, "");
    }
    push_str(&mut m, "]");
    Some(m)
}

/// The activity-log line after storing an AI-optimized text.
pub fn optimized_log_message(optimized: &str) -> (m: String)
    ensures
        m@ == "已写入 AI 优化结果 ["@ + dec_seq(optimized@.len()) + " 字]"@,
{
    let v = chars_of(optimized);
    let mut m = owned("已写入 AI 优化结果 [");
    let n = u64_to_dec(v.len() as u64);
    push_str(&mut m, n.as_str());
    push_str(&mut m, " 字]");
    m
}

} // verus!
