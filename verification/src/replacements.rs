//! Text replacement rules: validation, ordering and application.
use vstd::prelude::*;
use vstd::utf8::encode_utf8;
use crate::text::{
    chars_of, extend_chars, match_at, owned, push_char, replace_chars, replace_seq, string_from_chars,
    to_lowercase, unicode_lower,
};

verus! {

/// A replacement pair: every occurrence of `from` becomes `to`.
#[derive(Debug, Clone)]
pub struct TextReplacement {
    pub from: String,
    pub to: String,
}

/// All replacement pairs.
#[derive(Debug, Clone)]
pub struct TextReplacementsFile {
    pub replacements: Vec<TextReplacement>,
}

impl Default for TextReplacementsFile {
    fn default() -> (f: Self)
        ensures
            f.replacements@.len() == 0,
    {
        TextReplacementsFile { replacements: Vec::new() }
    }
}

// ── Ordering ──

/// The ordering key of a rule: the UTF-8 length of its pattern
/// (`str::len`).
pub open spec fn key(r: TextReplacement) -> usize {
    encode_utf8(r.from@).len() as usize
}

/// A copy of a rule.
pub fn copy_rule(r: &TextReplacement) -> (c: TextReplacement)
    ensures
        c == *r,
{
    TextReplacement { from: r.from.clone(), to: r.to.clone() }
}

/// The rules with a non-empty pattern, in their order.
pub open spec fn nonempty_rules(rs: Seq<TextReplacement>) -> Seq<TextReplacement>
    decreases rs.len(),
{
    if rs.len() == 0 {
        Seq::empty()
    } else if rs.last().from@.len() > 0 {
        nonempty_rules(rs.drop_last()).push(rs.last())
    } else {
        nonempty_rules(rs.drop_last())
    }
}

/// Where a rule goes in a list sorted by decreasing key: after every rule
/// whose key is at least its own.
pub open spec fn insert_pos(sorted: Seq<TextReplacement>, r: TextReplacement) -> int
    decreases sorted.len(),
{
    if sorted.len() == 0 {
        0
    } else if key(sorted.last()) >= key(r) {
        sorted.len() as int
    } else {
        insert_pos(sorted.drop_last(), r)
    }
}

/// Stable sort by decreasing key (insertion sort).
pub open spec fn sort_desc(rs: Seq<TextReplacement>) -> Seq<TextReplacement>
    decreases rs.len(),
{
    if rs.len() == 0 {
        Seq::empty()
    } else {
        let s = sort_desc(rs.drop_last());
        s.insert(insert_pos(s, rs.last()), rs.last())
    }
}

/// The order in which rules apply: patterns that are not empty, longest
/// first, rules of equal length in their given order.
pub open spec fn ordered_rules(rs: Seq<TextReplacement>) -> Seq<TextReplacement> {
    sort_desc(nonempty_rules(rs))
}

/// A list is sorted by decreasing key.
pub open spec fn sorted_desc(s: Seq<TextReplacement>) -> bool {
    forall|i: int, j: int| 0 <= i < j < s.len() ==> key(#[trigger] s[i]) >= key(#[trigger] s[j])
}

proof fn lemma_insert_pos(sorted: Seq<TextReplacement>, r: TextReplacement)
    requires
        sorted_desc(sorted),
    ensures
        0 <= insert_pos(sorted, r) <= sorted.len(),
        forall|i: int| 0 <= i < insert_pos(sorted, r) ==> key(#[trigger] sorted[i]) >= key(r),
        forall|i: int| insert_pos(sorted, r) <= i < sorted.len() ==> key(#[trigger] sorted[i]) < key(r),
    decreases sorted.len(),
{
    if sorted.len() > 0 {
        let n = sorted.len() - 1;
        let dl = sorted.drop_last();
        assert(sorted_desc(dl)) by {
            assert forall|i: int, j: int| 0 <= i < j < dl.len() implies key(#[trigger] dl[i]) >= key(
                #[trigger] dl[j],
            ) by {
                assert(dl[i] == sorted[i] && dl[j] == sorted[j]);
            }
        }
        lemma_insert_pos(dl, r);
        if key(sorted[n]) >= key(r) {
            assert forall|i: int| 0 <= i < insert_pos(sorted, r) implies key(#[trigger] sorted[i]) >= key(r) by {
                if i < n {
                    assert(key(sorted[i]) >= key(sorted[n]));
                }
            }
        } else {
            assert forall|i: int| 0 <= i < insert_pos(sorted, r) implies key(#[trigger] sorted[i]) >= key(r) by {
                assert(sorted[i] == dl[i]);
            }
            assert forall|i: int| insert_pos(sorted, r) <= i < sorted.len() implies key(
                #[trigger] sorted[i],
            ) < key(r) by {
                if i < n {
                    assert(sorted[i] == dl[i]);
                }
            }
        }
    }
}

/// The application order is sorted by decreasing pattern length, so a
/// longer pattern is always tried before a shorter one.
pub proof fn lemma_ordered_rules_sorted(rs: Seq<TextReplacement>)
    ensures
        sorted_desc(ordered_rules(rs)),
{
    lemma_sort_desc_sorted(nonempty_rules(rs));
}

proof fn lemma_sort_desc_sorted(rs: Seq<TextReplacement>)
    ensures
        sorted_desc(sort_desc(rs)),
        sort_desc(rs).len() == rs.len(),
    decreases rs.len(),
{
    if rs.len() > 0 {
        let s = sort_desc(rs.drop_last());
        lemma_sort_desc_sorted(rs.drop_last());
        lemma_insert_pos(s, rs.last());
        let p = insert_pos(s, rs.last());
        let t = s.insert(p, rs.last());
        assert forall|i: int, j: int| 0 <= i < j < t.len() implies key(#[trigger] t[i]) >= key(
            #[trigger] t[j],
        ) by {
            if j < p {
                assert(t[i] == s[i] && t[j] == s[j]);
            } else if j == p {
                assert(t[i] == s[i]);
            } else if i < p {
                assert(t[i] == s[i] && t[j] == s[j - 1]);
            } else if i == p {
                assert(t[j] == s[j - 1]);
            } else {
                assert(t[i] == s[i - 1] && t[j] == s[j - 1]);
            }
        }
    }
}

fn nonempty_rules_exec(rs: &[TextReplacement]) -> (v: Vec<TextReplacement>)
    ensures
        v@ == nonempty_rules(rs@),
{
    let mut v: Vec<TextReplacement> = Vec::new();
    let mut i: usize = 0;
    while i < rs.len()
        invariant
            i <= rs@.len(),
            v@ == nonempty_rules(rs@.take(i as int)),
        decreases rs@.len() - i,
    {
        assert(rs@.take((i + 1) as int).drop_last() =~= rs@.take(i as int));
        if !rs[i].from.as_str().is_empty() {
            v.push(copy_rule(&rs[i]));
        }
        i = i + 1;
    }
    assert(rs@.take(i as int) =~= rs@);
    v
}

fn insert_pos_exec(sorted: &Vec<TextReplacement>, r: &TextReplacement) -> (p: usize)
    ensures
        p == insert_pos(sorted@, *r),
{
    let k = r.from.as_str().len();
    let mut j = sorted.len();
    assert(sorted@.take(j as int) =~= sorted@);
    while j > 0
        invariant
            j <= sorted@.len(),
            insert_pos(sorted@.take(j as int), *r) == insert_pos(sorted@, *r),
            k == key(*r),
        decreases j,
    {
        assert(sorted@.take(j as int).drop_last() =~= sorted@.take(j - 1));
        assert(sorted@.take(j as int).last() == sorted@[j - 1]);
        if sorted[j - 1].from.as_str().len() >= k {
            return j;
        }
        j = j - 1;
    }
    j
}

fn sort_rules(rs: Vec<TextReplacement>) -> (v: Vec<TextReplacement>)
    ensures
        v@ == sort_desc(rs@),
{
    let mut v: Vec<TextReplacement> = Vec::new();
    let mut i: usize = 0;
    while i < rs.len()
        invariant
            i <= rs@.len(),
            v@ == sort_desc(rs@.take(i as int)),
        decreases rs@.len() - i,
    {
        assert(rs@.take((i + 1) as int).drop_last() =~= rs@.take(i as int));
        assert(sorted_len(rs@.take(i as int))) by {
            lemma_sort_desc_sorted(rs@.take(i as int));
        }
        let r = copy_rule(&rs[i]);
        let p = insert_pos_exec(&v, &r);
        proof {
            lemma_sort_desc_sorted(rs@.take(i as int));
            lemma_insert_pos(v@, r);
        }
        v.insert(p, r);
        i = i + 1;
    }
    assert(rs@.take(i as int) =~= rs@);
    v
}

spec fn sorted_len(s: Seq<TextReplacement>) -> bool {
    sort_desc(s).len() == s.len()
}

// ── Case-insensitive matching ──

/// What each character of `t` lower-cases to on its own.
pub open spec fn lone_groups(t: Seq<char>) -> Seq<Seq<char>> {
    Seq::new(t.len(), |i: int| unicode_lower(seq![t[i]]))
}

/// The total length of the first `k` groups.
pub open spec fn lens_upto(gs: Seq<Seq<char>>, k: int) -> int
    decreases k,
{
    if k <= 0 {
        0
    } else {
        lens_upto(gs, k - 1) + gs[k - 1].len()
    }
}

proof fn lemma_lens_mono(gs: Seq<Seq<char>>, i: int, j: int)
    requires
        0 <= i <= j,
    ensures
        lens_upto(gs, i) <= lens_upto(gs, j),
    decreases j,
{
    if i < j {
        lemma_lens_mono(gs, i, j - 1);
    }
}

/// The lower-cased characters of `t`, one group per character: the
/// lower-cased text (`str::to_lowercase` of the whole text, so that
/// context rules such as the final sigma apply) cut into pieces, the piece
/// of each character as long as that character lower-cased on its own.
/// Where those lengths do not add up to the lowered text's length, each
/// character lower-cased on its own.
pub open spec fn char_groups(t: Seq<char>) -> Seq<Seq<char>> {
    let pc = lone_groups(t);
    let l = unicode_lower(t);
    if lens_upto(pc, t.len() as int) == l.len() {
        Seq::new(t.len(), |i: int| l.subrange(lens_upto(pc, i), lens_upto(pc, i + 1)))
    } else {
        pc
    }
}

/// Where a match of the lowered pattern `lf` that starts at character `i`
/// ends: `lf` must be exactly the lowered characters `i`, `i + 1`, ... up
/// to the end (each taken whole, and none lowering to nothing).
pub open spec fn match_end(gs: Seq<Seq<char>>, i: int, lf: Seq<char>) -> Option<int>
    decreases lf.len(),
{
    if lf.len() == 0 {
        Some(i)
    } else if i < 0 || i >= gs.len() || gs[i].len() == 0 || gs[i].len() > lf.len() {
        None
    } else if lf.take(gs[i].len() as int) == gs[i] {
        match_end(gs, i + 1, lf.skip(gs[i].len() as int))
    } else {
        None
    }
}

/// The text from character `i` on, with each match (found left to right,
/// not overlapping) replaced by `to` and every other character kept as it
/// was.
pub open spec fn ci_groups(t: Seq<char>, gs: Seq<Seq<char>>, i: int, lf: Seq<char>, to: Seq<char>) -> Seq<char>
    decreases t.len() - i,
{
    if i < 0 || i >= t.len() {
        Seq::empty()
    } else {
        let m = match_end(gs, i, lf);
        if m is Some && i < m->0 <= t.len() {
            to + ci_groups(t, gs, m->0, lf, to)
        } else {
            seq![t[i]] + ci_groups(t, gs, i + 1, lf, to)
        }
    }
}

/// `n` copies of `s`, one after the other.
pub open spec fn repeat(s: Seq<char>, n: nat) -> Seq<char>
    decreases n,
{
    if n == 0 {
        Seq::<char>::empty()
    } else {
        s + repeat(s, (n - 1) as nat)
    }
}

/// The text's characters from `ps[0]` to `ps[last]` are back-to-back
/// matches of the lowered pattern: the `m`-th runs from `ps[m]` to
/// `ps[m + 1]`.
pub open spec fn back_to_back(gs: Seq<Seq<char>>, ps: Seq<int>, lf: Seq<char>) -> bool {
    &&& ps.len() >= 1
    &&& forall|m: int| 0 <= m < ps.len() - 1 ==> ps[m] < ps[m + 1] && #[trigger] match_end(gs, ps[m], lf) == Some(ps[m + 1])
}

proof fn lemma_chain_from(t: Seq<char>, gs: Seq<Seq<char>>, ps: Seq<int>, lf: Seq<char>, to: Seq<char>, m: int)
    requires
        back_to_back(gs, ps, lf),
        ps[0] >= 0,
        ps.last() == t.len(),
        0 <= m < ps.len(),
    ensures
        ci_groups(t, gs, ps[m], lf, to) == repeat(to, (ps.len() - 1 - m) as nat),
    decreases ps.len() - m,
{
    if m == ps.len() - 1 {
        assert(ci_groups(t, gs, ps[m], lf, to) == Seq::<char>::empty());
    } else {
        lemma_chain_from(t, gs, ps, lf, to, m + 1);
        assert(match_end(gs, ps[m], lf) == Some(ps[m + 1]));
        lemma_chain_increasing(ps, gs, lf, m);
        assert(ps[m + 1] <= t.len()) by {
            lemma_chain_increasing(ps, gs, lf, ps.len() - 1);
            lemma_chain_le_last(ps, gs, lf, m + 1);
        }
        assert(0 <= ps[m] < t.len());
    }
}

proof fn lemma_chain_increasing(ps: Seq<int>, gs: Seq<Seq<char>>, lf: Seq<char>, m: int)
    requires
        back_to_back(gs, ps, lf),
        0 <= m < ps.len(),
    ensures
        ps[0] <= ps[m],
    decreases m,
{
    if m > 0 {
        lemma_chain_increasing(ps, gs, lf, m - 1);
        assert(match_end(gs, ps[m - 1], lf) == Some(ps[m]));
    }
}

proof fn lemma_chain_le_last(ps: Seq<int>, gs: Seq<Seq<char>>, lf: Seq<char>, m: int)
    requires
        back_to_back(gs, ps, lf),
        0 <= m < ps.len(),
    ensures
        ps[m] <= ps.last(),
    decreases ps.len() - m,
{
    if m < ps.len() - 1 {
        lemma_chain_le_last(ps, gs, lf, m + 1);
        assert(match_end(gs, ps[m], lf) == Some(ps[m + 1]));
    }
}

/// Every match is replaced and reading goes on right after it: a text that
/// is nothing but `n` back-to-back matches of the pattern becomes `n`
/// copies of the replacement (for instance "哈哈哈" with 哈 → 呵 gives
/// "呵呵呵").
pub proof fn lemma_back_to_back_matches(t: Seq<char>, gs: Seq<Seq<char>>, ps: Seq<int>, lf: Seq<char>, to: Seq<char>)
    requires
        back_to_back(gs, ps, lf),
        ps[0] == 0,
        ps.last() == t.len(),
    ensures
        ci_groups(t, gs, 0, lf, to) == repeat(to, (ps.len() - 1) as nat),
{
    lemma_chain_from(t, gs, ps, lf, to, 0);
}

/// The same at the level of case-insensitive replacement: when the text's
/// lower-cased characters ([`char_groups`]) are `n` back-to-back matches of
/// the lower-cased pattern, the result is `n` copies of the replacement.
pub proof fn lemma_ci_rule_replaces_every_match(text: Seq<char>, from: Seq<char>, to: Seq<char>, ps: Seq<int>)
    requires
        unicode_lower(from).len() > 0,
        back_to_back(char_groups(text), ps, unicode_lower(from)),
        ps[0] == 0,
        ps.last() == text.len(),
    ensures
        ci_rule(text, from, to) == repeat(to, (ps.len() - 1) as nat),
{
    lemma_back_to_back_matches(text, char_groups(text), ps, unicode_lower(from), to);
}

/// Case-insensitive replacement: the pattern is lower-cased
/// (`str::to_lowercase`) and matched against the lower-cased characters of
/// the text ([`char_groups`]), and each match is replaced in the given text, so the rest
/// of the text is kept exactly, also where lower-casing changes a
/// character's length.  A match covers whole characters.  A pattern that
/// lower-cases to nothing leaves the text as it is.
pub open spec fn ci_rule(text: Seq<char>, from: Seq<char>, to: Seq<char>) -> Seq<char> {
    let lf = unicode_lower(from);
    if lf.len() == 0 {
        text
    } else {
        ci_groups(text, char_groups(text), 0, lf, to)
    }
}

pub open spec fn group_views(gs: Seq<Vec<char>>) -> Seq<Seq<char>> {
    gs.map_values(|g: Vec<char>| g@)
}

/// What each character of `t` lower-cases to on its own, computed.
fn lone_groups_exec(t: &[char]) -> (gs: Vec<Vec<char>>)
    ensures
        gs@.len() == t@.len(),
        group_views(gs@) == lone_groups(t@),
{
    let mut gs: Vec<Vec<char>> = Vec::new();
    let mut i: usize = 0;
    while i < t.len()
        invariant
            i <= t@.len(),
            gs@.len() == i,
            forall|k: int| 0 <= k < i ==> (#[trigger] gs@[k])@ == unicode_lower(seq![t@[k]]),
        decreases t@.len() - i,
    {
        let mut one = owned("");
        proof {
            reveal_strlit("");
        }
        push_char(&mut one, t[i]);
        assert(one@ =~= seq![t@[i as int]]);
        let lowered = to_lowercase(one.as_str());
        gs.push(chars_of(lowered.as_str()));
        i = i + 1;
    }
    assert(group_views(gs@) =~= lone_groups(t@));
    gs
}

/// [`char_groups`], computed from the characters `t` and the lowered text
/// `lt`.
fn char_groups_exec(t: &[char], lt: &[char]) -> (gs: Vec<Vec<char>>)
    requires
        lt@ == unicode_lower(t@),
    ensures
        gs@.len() == t@.len(),
        group_views(gs@) == char_groups(t@),
{
    let lone = lone_groups_exec(t);
    let ghost g = group_views(lone@);
    let n = lone.len();
    let mut k: usize = 0;
    let mut off: usize = 0;
    while k < n
        invariant
            k <= n,
            n == lone@.len(),
            n == t@.len(),
            g == group_views(lone@),
            g == lone_groups(t@),
            lt@ == unicode_lower(t@),
            off == lens_upto(g, k as int),
            off <= lt@.len(),
        decreases n - k,
    {
        let m = lone[k].len();
        assert(g[k as int] == lone@[k as int]@);
        assert(lens_upto(g, k + 1) == lens_upto(g, k as int) + g[k as int].len());
        if m > lt.len() - off {
            proof {
                lemma_lens_mono(g, k + 1, n as int);
            }
            assert(char_groups(t@) == lone_groups(t@));
            return lone;
        }
        off = off + m;
        k = k + 1;
    }
    if off != lt.len() {
        return lone;
    }
    let total = lt.len();
    let mut gs: Vec<Vec<char>> = Vec::new();
    k = 0;
    off = 0;
    while k < n
        invariant
            k <= n,
            n == lone@.len(),
            n == t@.len(),
            g == group_views(lone@),
            g == lone_groups(t@),
            lt@ == unicode_lower(t@),
            lens_upto(g, n as int) == lt@.len(),
            total == lt@.len(),
            off == lens_upto(g, k as int),
            gs@.len() == k,
            forall|j: int| 0 <= j < k ==> (#[trigger] gs@[j])@ == lt@.subrange(lens_upto(g, j), lens_upto(g, j + 1)),
        decreases n - k,
    {
        proof {
            lemma_lens_mono(g, k + 1, n as int);
        }
        let m = lone[k].len();
        assert(g[k as int] == lone@[k as int]@);
        assert(lens_upto(g, k + 1) == lens_upto(g, k as int) + g[k as int].len());
        let end = off + m;
        let mut piece: Vec<char> = Vec::new();
        let mut p: usize = off;
        while p < end
            invariant
                off <= p <= end <= lt@.len(),
                end == off + m,
                piece@ == lt@.subrange(off as int, p as int),
            decreases end - p,
        {
            piece.push(lt[p]);
            p = p + 1;
            assert(piece@ =~= lt@.subrange(off as int, p as int));
        }
        gs.push(piece);
        off = end;
        k = k + 1;
    }
    assert(group_views(gs@) =~= char_groups(t@));
    gs
}

/// [`match_end`], computed.
fn match_end_exec(gs: &Vec<Vec<char>>, i: usize, lf: &[char]) -> (r: Option<usize>)
    requires
        i <= gs@.len(),
        lf@.len() > 0,
    ensures
        match r {
            Some(j) => match_end(group_views(gs@), i as int, lf@) == Some(j as int) && i < j <= gs@.len(),
            None => match_end(group_views(gs@), i as int, lf@) is None,
        },
{
    let ghost g = group_views(gs@);
    let mut k: usize = i;
    let mut p: usize = 0;
    assert(lf@.skip(0) =~= lf@);
    while p < lf.len()
        invariant
            i <= k <= gs@.len(),
            p <= lf@.len(),
            g == group_views(gs@),
            p == 0 ==> k == i,
            p > 0 ==> k > i,
            match_end(g, i as int, lf@) == match_end(g, k as int, lf@.skip(p as int)),
        decreases lf@.len() - p,
    {
        let ghost rest = lf@.skip(p as int);
        if k >= gs.len() {
            return None;
        }
        let n = gs[k].len();
        assert(g[k as int] == gs@[k as int]@);
        if n == 0 || n > lf.len() - p {
            return None;
        }
        if !match_at(lf, p, gs[k].as_slice()) {
            assert(rest.take(n as int) != g[k as int]) by {
                assert(rest.take(n as int) =~= lf@.subrange(p as int, p + n));
            }
            return None;
        }
        assert(rest.take(n as int) =~= g[k as int]) by {
            assert(rest.take(n as int) =~= lf@.subrange(p as int, p + n));
        }
        assert(rest.skip(n as int) =~= lf@.skip(p + n));
        k = k + 1;
        p = p + n;
    }
    assert(lf@.skip(p as int) =~= Seq::<char>::empty());
    Some(k)
}

/// [`ci_groups`] from the start, computed.
fn ci_groups_exec(t: &[char], gs: &Vec<Vec<char>>, lf: &[char], to: &[char]) -> (r: Vec<char>)
    requires
        gs@.len() == t@.len(),
        lf@.len() > 0,
    ensures
        r@ == ci_groups(t@, group_views(gs@), 0, lf@, to@),
{
    let ghost g = group_views(gs@);
    let mut r: Vec<char> = Vec::new();
    let mut i: usize = 0;
    assert(r@ + ci_groups(t@, g, 0, lf@, to@) =~= ci_groups(t@, g, 0, lf@, to@));
    while i < t.len()
        invariant
            i <= t@.len(),
            gs@.len() == t@.len(),
            g == group_views(gs@),
            lf@.len() > 0,
            r@ + ci_groups(t@, g, i as int, lf@, to@) == ci_groups(t@, g, 0, lf@, to@),
        decreases t@.len() - i,
    {
        let m = match_end_exec(gs, i, lf);
        match m {
            Some(j) => {
                let ghost r0 = r@;
                extend_chars(&mut r, to);
                assert(r@ + ci_groups(t@, g, j as int, lf@, to@) =~= r0 + ci_groups(t@, g, i as int, lf@, to@));
                i = j;
            },
            None => {
                let ghost r0 = r@;
                r.push(t[i]);
                assert(r@ + ci_groups(t@, g, i + 1, lf@, to@) =~= r0 + ci_groups(t@, g, i as int, lf@, to@));
                i = i + 1;
            },
        }
    }
    assert(ci_groups(t@, g, i as int, lf@, to@) =~= Seq::<char>::empty());
    assert(r@ + Seq::<char>::empty() =~= r@);
    r
}

/// One rule applied to a text.
pub open spec fn apply_rule(text: Seq<char>, r: TextReplacement, ignore_case: bool) -> Seq<char> {
    if ignore_case {
        ci_rule(text, r.from@, r.to@)
    } else {
        replace_seq(text, r.from@, r.to@)
    }
}

/// The rules applied one after the other.
pub open spec fn apply_all(text: Seq<char>, rules: Seq<TextReplacement>, ignore_case: bool) -> Seq<char>
    decreases rules.len(),
{
    if rules.len() == 0 {
        text
    } else {
        apply_rule(apply_all(text, rules.drop_last(), ignore_case), rules.last(), ignore_case)
    }
}

/// Case-insensitive replacement of `from` by `to` in `text` (see
/// [`ci_rule`]).
pub fn replace_ignore_case(text: &str, from: &str, to: &str) -> (r: String)
    ensures
        r@ == ci_rule(text@, from@, to@),
{
    let lf = to_lowercase(from);
    let lfc = chars_of(lf.as_str());
    if lfc.len() == 0 {
        return owned(text);
    }
    let t = chars_of(text);
    let lt = to_lowercase(text);
    let ltc = chars_of(lt.as_str());
    let gs = char_groups_exec(t.as_slice(), ltc.as_slice());
    let toc = chars_of(to);
    let r = ci_groups_exec(t.as_slice(), &gs, lfc.as_slice(), toc.as_slice());
    string_from_chars(r.as_slice())
}

/// Applies the replacement rules to `text`: rules with an empty pattern are
/// skipped, longer patterns (in UTF-8 bytes) go first so that a short
/// pattern cannot break up a longer one, and rules of equal length keep
/// their order.
pub fn apply_replacements(text: &str, replacements: &[TextReplacement], ignore_case: bool) -> (r: String)
    ensures
        r@ == apply_all(text@, ordered_rules(replacements@), ignore_case),
{
    let rules = sort_rules(nonempty_rules_exec(replacements));
    let mut result = owned(text);
    let mut i: usize = 0;
    while i < rules.len()
        invariant
            i <= rules@.len(),
            rules@ == ordered_rules(replacements@),
            result@ == apply_all(text@, rules@.take(i as int), ignore_case),
        decreases rules@.len() - i,
    {
        assert(rules@.take((i + 1) as int).drop_last() =~= rules@.take(i as int));
        let r = &rules[i];
        if ignore_case {
            result = replace_ignore_case(result.as_str(), r.from.as_str(), r.to.as_str());
        } else {
            result = replace_str(result.as_str(), r.from.as_str(), r.to.as_str());
        }
        i = i + 1;
    }
    assert(rules@.take(i as int) =~= rules@);
    result
}

/// `str::replace` for a pattern: every non-overlapping occurrence, left to
/// right.
fn replace_str(text: &str, from: &str, to: &str) -> (r: String)
    ensures
        r@ == replace_seq(text@, from@, to@),
{
    let t = chars_of(text);
    let f = chars_of(from);
    if f.len() == 0 {
        return owned(text);
    }
    let toc = chars_of(to);
    let r = replace_chars(t.as_slice(), f.as_slice(), toc.as_slice());
    string_from_chars(r.as_slice())
}

} // verus!
