//! Removal of pure filler-word segments ("嗯", "呃", ...) from transcripts.
//!
//! Only whole segments (runs of text between punctuation or whitespace) made
//! up entirely of filler words are removed, together with the delimiter that
//! follows them; filler characters inside other words (such as "嗯哼") are
//! kept.
use vstd::prelude::*;
use crate::text::{chars_of, matches_at, replace_chars, replace_seq, string_from_chars, trim, trim_chars};

verus! {

/// The filler words, longest first, in the order they are removed.
pub open spec fn fillers() -> Seq<Seq<char>> {
    seq![
        "就是说呃"@,
        "怎么说呢"@,
        "就是说"@,
        "呃呃呃"@,
        "嗯嗯嗯"@,
        "啊啊啊"@,
        "呃呃"@,
        "嗯嗯"@,
        "啊啊"@,
        "呃"@,
        "嗯"@,
        "额"@,
        "唔"@,
        "噢"@,
    ]
}

fn filler_at(i: usize) -> (s: &'static str)
    requires
        i < 14,
    ensures
        s@ == fillers()[i as int],
{
    match i {
        0 => "就是说呃",
        1 => "怎么说呢",
        2 => "就是说",
        3 => "呃呃呃",
        4 => "嗯嗯嗯",
        5 => "啊啊啊",
        6 => "呃呃",
        7 => "嗯嗯",
        8 => "啊啊",
        9 => "呃",
        10 => "嗯",
        11 => "额",
        12 => "唔",
        _ => "噢",
    }
}

/// Segment delimiters: Chinese and ASCII punctuation and whitespace
/// (including the ideographic space).
pub open spec fn is_delim(c: char) -> bool {
    ||| c == '，'
    ||| c == '。'
    ||| c == '！'
    ||| c == '？'
    ||| c == '、'
    ||| c == '；'
    ||| c == '：'
    ||| c == ','
    ||| c == '.'
    ||| c == '!'
    ||| c == '?'
    ||| c == ';'
    ||| c == ':'
    ||| c == ' '
    ||| c == '\n'
    ||| c == '\t'
    ||| c == '\u{3000}'
}

pub fn is_delimiter(c: char) -> (b: bool)
    ensures
        b == is_delim(c),
{
    c == '，' || c == '。' || c == '！' || c == '？' || c == '、' || c == '；' || c == '：' || c == ','
        || c == '.' || c == '!' || c == '?' || c == ';' || c == ':' || c == ' ' || c == '\n' || c
        == '\t' || c == '\u{3000}'
}

/// `s` after removing every occurrence of the first `k` filler words, one
/// word after the other.
pub open spec fn strip_fillers(s: Seq<char>, k: nat) -> Seq<char>
    decreases k,
{
    if k == 0 {
        s
    } else {
        replace_seq(strip_fillers(s, (k - 1) as nat), fillers()[k - 1], Seq::<char>::empty())
    }
}

/// A segment made only of filler words (and whitespace).
pub open spec fn pure_filler(segment: Seq<char>) -> bool {
    trim(strip_fillers(segment, 14)).len() == 0
}

proof fn lemma_replace_absent(s: Seq<char>, p: Seq<char>, e: Seq<char>)
    requires
        p.len() > 0,
        forall|m: int| !#[trigger] matches_at(s, m, p),
    ensures
        replace_seq(s, p, e) == s,
    decreases s.len(),
{
    if s.len() > 0 {
        assert forall|m: int| !#[trigger] matches_at(s.drop_first(), m, p) by {
            if matches_at(s.drop_first(), m, p) {
                assert(s.drop_first().subrange(m, m + p.len()) =~= s.subrange(m + 1, m + 1 + p.len()));
                assert(matches_at(s, m + 1, p));
            }
        }
        lemma_replace_absent(s.drop_first(), p, e);
        assert(seq![s[0]] + s.drop_first() =~= s);
    }
}

proof fn lemma_replace_whole(p: Seq<char>, e: Seq<char>)
    requires
        p.len() > 0,
    ensures
        replace_seq(p, p, e) == e,
{
    assert(p.subrange(0, p.len() as int) =~= p);
    assert(matches_at(p, 0, p));
    assert(p.skip(p.len() as int) =~= Seq::<char>::empty());
    assert(replace_seq(Seq::<char>::empty(), p, e) == Seq::<char>::empty());
    assert(replace_seq(p, p, e) == e + replace_seq(p.skip(p.len() as int), p, e));
    assert(e + Seq::<char>::empty() =~= e);
}

/// An earlier filler word never occurs in a later one (the list goes from
/// longer words to shorter ones, and words of one length differ).
proof fn lemma_earlier_filler_absent(j: int, i: int)
    requires
        0 <= j < i < 14,
    ensures
        fillers()[j].len() > 0,
        forall|m: int| !#[trigger] matches_at(fillers()[i], m, fillers()[j]),
{
    reveal_strlit("就是说呃");
    reveal_strlit("怎么说呢");
    reveal_strlit("就是说");
    reveal_strlit("呃呃呃");
    reveal_strlit("嗯嗯嗯");
    reveal_strlit("啊啊啊");
    reveal_strlit("呃呃");
    reveal_strlit("嗯嗯");
    reveal_strlit("啊啊");
    reveal_strlit("呃");
    reveal_strlit("嗯");
    reveal_strlit("额");
    reveal_strlit("唔");
    reveal_strlit("噢");
    let a = fillers()[i];
    let b = fillers()[j];
    assert(b.len() >= a.len());
    assert(b.len() == a.len() ==> b[0] != a[0] || b[a.len() - 1] != a[a.len() - 1]);
    assert forall|m: int| !#[trigger] matches_at(a, m, b) by {
        if matches_at(a, m, b) {
            assert(m == 0);
            assert(a.subrange(0, a.len() as int) =~= a);
        }
    }
}

proof fn lemma_strip_one(i: int, k: nat)
    requires
        0 <= i < 14,
        k <= 14,
    ensures
        strip_fillers(fillers()[i], k) == if k <= i {
            fillers()[i]
        } else {
            Seq::<char>::empty()
        },
    decreases k,
{
    if k > 0 {
        lemma_strip_one(i, (k - 1) as nat);
        if k - 1 < i {
            lemma_earlier_filler_absent(k - 1, i);
            lemma_replace_absent(fillers()[i], fillers()[k - 1], Seq::<char>::empty());
        } else if k - 1 == i {
            lemma_earlier_filler_absent(0, 13);
            reveal_strlit("就是说呃");
            reveal_strlit("怎么说呢");
            reveal_strlit("就是说");
            reveal_strlit("呃呃呃");
            reveal_strlit("嗯嗯嗯");
            reveal_strlit("啊啊啊");
            reveal_strlit("呃呃");
            reveal_strlit("嗯嗯");
            reveal_strlit("啊啊");
            reveal_strlit("呃");
            reveal_strlit("嗯");
            reveal_strlit("额");
            reveal_strlit("唔");
            reveal_strlit("噢");
            lemma_replace_whole(fillers()[i], Seq::<char>::empty());
        }
    }
}

/// Every word of the filler list is, on its own, a pure filler segment
/// (so a segment such as "就是说" or "怎么说呢" is dropped).
pub proof fn lemma_each_filler_is_pure(i: int)
    requires
        0 <= i < 14,
    ensures
        pure_filler(fillers()[i]),
{
    lemma_strip_one(i, 14);
    assert(trim(Seq::<char>::empty()) == Seq::<char>::empty());
}

/// Returns true if the segment (after removing filler words) is empty,
/// meaning the entire segment consists only of filler words.
pub fn is_pure_filler(segment: &[char]) -> (b: bool)
    ensures
        b == pure_filler(segment@),
{
    let mut remaining: Vec<char> = crate::text::to_vec_chars(segment);
    let empty: Vec<char> = Vec::new();
    let mut k: usize = 0;
    assert(remaining@ == strip_fillers(segment@, 0));
    while k < 14
        invariant
            k <= 14,
            empty@ == Seq::<char>::empty(),
            remaining@ == strip_fillers(segment@, k as nat),
        decreases 14 - k,
    {
        let f = chars_of(filler_at(k));
        assert(f@.len() > 0) by {
            reveal_strlit("就是说呃");
            reveal_strlit("怎么说呢");
            reveal_strlit("就是说");
            reveal_strlit("呃呃呃");
            reveal_strlit("嗯嗯嗯");
            reveal_strlit("啊啊啊");
            reveal_strlit("呃呃");
            reveal_strlit("嗯嗯");
            reveal_strlit("啊啊");
            reveal_strlit("呃");
            reveal_strlit("嗯");
            reveal_strlit("额");
            reveal_strlit("唔");
            reveal_strlit("噢");
        }
        remaining = replace_chars(remaining.as_slice(), f.as_slice(), empty.as_slice());
        k = k + 1;
    }
    trim_chars(remaining.as_slice()).len() == 0
}

/// Output and skip flag after the current run `cur` ends: a pure filler run
/// is dropped and arms the skip of the next delimiter.
pub open spec fn flush(out: Seq<char>, cur: Seq<char>, skip: bool) -> (Seq<char>, bool) {
    if cur.len() == 0 {
        (out, skip)
    } else if pure_filler(cur) {
        (out, true)
    } else {
        (out + cur, false)
    }
}

/// The segment-wise filtering of `s`, given the output so far, the current
/// run of non-delimiters and whether the next delimiter is to be dropped.
pub open spec fn clean_fold(s: Seq<char>, out: Seq<char>, cur: Seq<char>, skip: bool) -> Seq<char>
    decreases s.len(),
{
    if s.len() == 0 {
        flush(out, cur, skip).0
    } else if is_delim(s[0]) {
        let (o1, sk1) = flush(out, cur, skip);
        clean_fold(
            s.drop_first(),
            if sk1 {
                o1
            } else {
                o1.push(s[0])
            },
            Seq::<char>::empty(),
            false,
        )
    } else {
        clean_fold(s.drop_first(), out, cur.push(s[0]), skip)
    }
}

/// `s` without its trailing delimiters (as `trim_end_matches`).
pub open spec fn trim_end_delims(s: Seq<char>) -> Seq<char>
    decreases s.len(),
{
    if s.len() > 0 && is_delim(s.last()) {
        trim_end_delims(s.drop_last())
    } else {
        s
    }
}

/// What `clean_pure_fillers` returns for `text`.
pub open spec fn clean_spec(text: Seq<char>) -> Seq<char> {
    if text.len() == 0 {
        Seq::<char>::empty()
    } else {
        trim(
            trim_end_delims(
                trim(clean_fold(text, Seq::<char>::empty(), Seq::<char>::empty(), false)),
            ),
        )
    }
}

/// Every run of non-delimiters in `cur + s` (the first one continuing
/// `cur`) is empty or not made only of filler words.
pub open spec fn runs_kept(s: Seq<char>, cur: Seq<char>) -> bool
    decreases s.len(),
{
    if s.len() == 0 {
        cur.len() == 0 || !pure_filler(cur)
    } else if is_delim(s[0]) {
        (cur.len() == 0 || !pure_filler(cur)) && runs_kept(s.drop_first(), Seq::<char>::empty())
    } else {
        runs_kept(s.drop_first(), cur.push(s[0]))
    }
}

proof fn lemma_fold_keeps(s: Seq<char>, out: Seq<char>, cur: Seq<char>)
    requires
        runs_kept(s, cur),
    ensures
        clean_fold(s, out, cur, false) == out + cur + s,
    decreases s.len(),
{
    if s.len() == 0 {
        assert(out + cur + s =~= out + cur);
        if cur.len() == 0 {
            assert(out + cur =~= out);
        }
    } else if is_delim(s[0]) {
        let o1 = out + cur;
        if cur.len() == 0 {
            assert(out + cur =~= out);
        }
        lemma_fold_keeps(s.drop_first(), o1.push(s[0]), Seq::<char>::empty());
        assert(o1.push(s[0]) + Seq::<char>::empty() + s.drop_first() =~= out + cur + s);
    } else {
        lemma_fold_keeps(s.drop_first(), out, cur.push(s[0]));
        assert(out + cur.push(s[0]) + s.drop_first() =~= out + cur + s);
    }
}

/// Only whole segments are removed: a text none of whose segments is made
/// only of filler words keeps every character (a filler inside a longer
/// word, as in "嗯哼", stays); it is only trimmed of surrounding whitespace
/// and trailing delimiters.
pub proof fn lemma_kept_text_only_trimmed(text: Seq<char>)
    requires
        runs_kept(text, Seq::<char>::empty()),
    ensures
        clean_spec(text) == trim(trim_end_delims(trim(text))),
{
    lemma_fold_keeps(text, Seq::<char>::empty(), Seq::<char>::empty());
    assert(Seq::<char>::empty() + Seq::<char>::empty() + text =~= text);
}

/// The number of non-delimiters at the start of `s`.
pub open spec fn run_len(s: Seq<char>) -> nat
    decreases s.len(),
{
    if s.len() == 0 || is_delim(s[0]) {
        0
    } else {
        1 + run_len(s.drop_first())
    }
}

/// A run is no longer than the text, and not empty when the text starts
/// with a non-delimiter.
pub proof fn lemma_run_len_bound(s: Seq<char>)
    ensures
        run_len(s) <= s.len(),
        s.len() > 0 && !is_delim(s[0]) ==> run_len(s) >= 1,
    decreases s.len(),
{
    if s.len() > 0 && !is_delim(s[0]) {
        lemma_run_len_bound(s.drop_first());
    }
}

/// `s` holds no delimiter.
pub open spec fn no_delims(s: Seq<char>) -> bool {
    forall|i: int| 0 <= i < s.len() ==> !is_delim(#[trigger] s[i])
}

proof fn lemma_run_len_concat(a: Seq<char>, b: Seq<char>)
    requires
        no_delims(a),
    ensures
        run_len(a + b) == a.len() + run_len(b),
    decreases a.len(),
{
    if a.len() == 0 {
        assert(a + b =~= b);
    } else {
        assert((a + b).drop_first() =~= a.drop_first() + b);
        lemma_run_len_concat(a.drop_first(), b);
    }
}

/// The text segment by segment: each delimiter is kept; each segment (a
/// maximal run of non-delimiters) is kept as it is unless it is made only
/// of filler words, in which case it is dropped together with the
/// delimiter right after it.
pub open spec fn segment_filter(s: Seq<char>) -> Seq<char>
    decreases s.len(),
{
    if s.len() == 0 {
        Seq::<char>::empty()
    } else if is_delim(s[0]) {
        seq![s[0]] + segment_filter(s.drop_first())
    } else {
        let n = run_len(s) as int;
        proof {
            lemma_run_len_bound(s);
        }
        let seg = s.take(n);
        let rest = s.skip(n);
        if pure_filler(seg) {
            if rest.len() == 0 {
                Seq::<char>::empty()
            } else {
                segment_filter(rest.drop_first())
            }
        } else {
            seg + segment_filter(rest)
        }
    }
}

proof fn lemma_fold_segments(s: Seq<char>, out: Seq<char>, cur: Seq<char>)
    requires
        no_delims(cur),
    ensures
        clean_fold(s, out, cur, false) == out + segment_filter(cur + s),
    decreases s.len(),
{
    let t = cur + s;
    if cur.len() > 0 {
        lemma_run_len_concat(cur, s);
        lemma_run_len_bound(s);
        assert(t[0] == cur[0]);
    }
    if s.len() == 0 {
        assert(t =~= cur);
        if cur.len() == 0 {
            assert(out + Seq::<char>::empty() =~= out);
        } else {
            assert(run_len(s) == 0);
            assert(t.take(cur.len() as int) =~= cur);
            assert(t.skip(cur.len() as int) =~= Seq::<char>::empty());
            assert(cur + Seq::<char>::empty() =~= cur);
            assert(out + Seq::<char>::empty() =~= out);
            assert(run_len(t) == cur.len());
            assert(!is_delim(t[0]));
            assert(segment_filter(Seq::<char>::empty()) == Seq::<char>::empty());
            assert(segment_filter(t) == if pure_filler(cur) {
                Seq::<char>::empty()
            } else {
                cur
            });
        }
    } else if is_delim(s[0]) {
        let s1 = s.drop_first();
        let (o1, sk1) = flush(out, cur, false);
        let o2 = if sk1 {
            o1
        } else {
            o1.push(s[0])
        };
        lemma_fold_segments(s1, o2, Seq::<char>::empty());
        assert(Seq::<char>::empty() + s1 =~= s1);
        if cur.len() == 0 {
            assert(t =~= s);
            assert(out.push(s[0]) + segment_filter(s1) =~= out + (seq![s[0]] + segment_filter(s1)));
        } else {
            assert(run_len(s) == 0);
            assert(t.take(cur.len() as int) =~= cur);
            assert(t.skip(cur.len() as int) =~= s);
            assert(run_len(t) == cur.len());
            assert(segment_filter(s) == seq![s[0]] + segment_filter(s1));
            if !pure_filler(cur) {
                assert((out + cur).push(s[0]) + segment_filter(s1) =~= out + (cur + (seq![s[0]]
                    + segment_filter(s1))));
            }
        }
    } else {
        let c2 = cur.push(s[0]);
        assert(no_delims(c2));
        lemma_fold_segments(s.drop_first(), out, c2);
        assert(c2 + s.drop_first() =~= t);
    }
}

/// Only segments made of filler words are removed: cleaning a text keeps
/// every delimiter and every other segment, in order, and drops each
/// segment made only of filler words together with the delimiter right
/// after it ([`segment_filter`]); the result is then trimmed of
/// surrounding whitespace and trailing delimiters.
pub proof fn lemma_clean_drops_filler_segments(text: Seq<char>)
    requires
        text.len() > 0,
    ensures
        clean_spec(text) == trim(trim_end_delims(trim(segment_filter(text)))),
{
    lemma_fold_segments(text, Seq::<char>::empty(), Seq::<char>::empty());
    assert(Seq::<char>::empty() + text =~= text);
    assert(Seq::<char>::empty() + segment_filter(text) =~= segment_filter(text));
}

fn flush_exec(out: &mut Vec<char>, cur: &Vec<char>, skip: bool) -> (sk: bool)
    ensures
        (final(out)@, sk) == flush(old(out)@, cur@, skip),
{
    if cur.len() == 0 {
        skip
    } else if is_pure_filler(cur.as_slice()) {
        true
    } else {
        crate::text::extend_chars(out, cur.as_slice());
        false
    }
}

fn trim_end_delims_exec(s: &[char]) -> (t: Vec<char>)
    ensures
        t@ == trim_end_delims(s@),
{
    let mut j = s.len();
    assert(s@.subrange(0, j as int) =~= s@);
    while j > 0 && is_delimiter(s[j - 1])
        invariant
            j <= s@.len(),
            trim_end_delims(s@) == trim_end_delims(s@.subrange(0, j as int)),
        decreases j,
    {
        assert(s@.subrange(0, j as int).drop_last() =~= s@.subrange(0, j - 1));
        j = j - 1;
    }
    let mut t: Vec<char> = Vec::new();
    let mut k: usize = 0;
    while k < j
        invariant
            k <= j <= s@.len(),
            t@ == s@.subrange(0, k as int),
        decreases j - k,
    {
        t.push(s[k]);
        k = k + 1;
        assert(t@ =~= s@.subrange(0, k as int));
    }
    t
}

/// Remove the segments made only of filler words, with the delimiter right
/// after each, then trim trailing delimiters and whitespace.
pub fn clean_pure_fillers(text: &str) -> (r: String)
    ensures
        r@ == clean_spec(text@),
{
    let chars = chars_of(text);
    if chars.len() == 0 {
        return String::new();
    }
    let mut out: Vec<char> = Vec::new();
    let mut cur: Vec<char> = Vec::new();
    let mut skip = false;
    let mut i: usize = 0;
    assert(chars@.skip(0) =~= chars@);
    while i < chars.len()
        invariant
            i <= chars@.len(),
            chars@ == text@,
            clean_fold(text@, Seq::<char>::empty(), Seq::<char>::empty(), false) == clean_fold(
                chars@.skip(i as int),
                out@,
                cur@,
                skip,
            ),
        decreases chars@.len() - i,
    {
        let c = chars[i];
        assert(chars@.skip(i as int).drop_first() =~= chars@.skip(i + 1));
        if is_delimiter(c) {
            let sk = flush_exec(&mut out, &cur, skip);
            cur = Vec::new();
            if !sk {
                out.push(c);
            }
            skip = false;
        } else {
            cur.push(c);
        }
        i = i + 1;
    }
    assert(chars@.skip(i as int) =~= Seq::<char>::empty());
    let _ = flush_exec(&mut out, &cur, skip);
    let t1 = trim_chars(out.as_slice());
    let t2 = trim_end_delims_exec(t1.as_slice());
    let t3 = trim_chars(t2.as_slice());
    string_from_chars(t3.as_slice())
}

} // verus!
