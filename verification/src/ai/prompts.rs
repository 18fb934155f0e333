//! Prompt templates: keeping the built-in templates present and current in
//! the stored list, and validating a list before it is saved.
use vstd::prelude::*;
use crate::text::{chars_of, contains_lit, contains_seq, owned, push_str, str_eq, trim, trim_chars};

verus! {

/// A prompt template for AI text optimization.
#[derive(Debug, Clone)]
pub struct PromptTemplate {
    pub id: String,
    pub name: String,
    pub category: String,
    pub system_prompt: String,
    /// The user message; `{{text}}` stands for the transcribed text.
    pub user_prompt_template: String,
    pub is_builtin: bool,
}

/// All prompt templates.
#[derive(Debug, Clone)]
pub struct PromptsFile {
    pub prompts: Vec<PromptTemplate>,
}

impl PromptsFile {
    /// A file holding just the built-in templates.
    pub fn from_builtins(builtins: Vec<PromptTemplate>) -> (f: Self)
        ensures
            f.prompts@ == builtins@,
    {
        PromptsFile { prompts: builtins }
    }
}

/// A copy of a template.
pub fn copy_prompt(p: &PromptTemplate) -> (c: PromptTemplate)
    ensures
        c == *p,
{
    PromptTemplate {
        id: p.id.clone(),
        name: p.name.clone(),
        category: p.category.clone(),
        system_prompt: p.system_prompt.clone(),
        user_prompt_template: p.user_prompt_template.clone(),
        is_builtin: p.is_builtin,
    }
}

// ── Keeping the built-in templates ──

/// Some template of `ps` has id `id`.
pub open spec fn has_id(ps: Seq<PromptTemplate>, id: Seq<char>) -> bool {
    exists|i: int| 0 <= i < ps.len() && (#[trigger] ps[i]).id@ == id
}

/// No two templates share an id.
pub open spec fn distinct_ids(ps: Seq<PromptTemplate>) -> bool {
    forall|i: int, j: int| 0 <= i < j < ps.len() ==> (#[trigger] ps[i]).id@ != (#[trigger] ps[j]).id@
}

/// The stored templates without stale built-ins: a template marked
/// built-in stays only if a current built-in has its id.
pub open spec fn without_stale(ps: Seq<PromptTemplate>, defaults: Seq<PromptTemplate>) -> Seq<PromptTemplate>
    decreases ps.len(),
{
    if ps.len() == 0 {
        Seq::empty()
    } else {
        let p = ps.last();
        if !p.is_builtin || has_id(defaults, p.id@) {
            without_stale(ps.drop_last(), defaults).push(p)
        } else {
            without_stale(ps.drop_last(), defaults)
        }
    }
}

/// The index of the first template with id `id` (`ps.len()` if none).
pub open spec fn first_index(ps: Seq<PromptTemplate>, id: Seq<char>) -> nat
    decreases ps.len(),
{
    if ps.len() == 0 {
        0
    } else if ps[0].id@ == id {
        0
    } else {
        first_index(ps.drop_first(), id) + 1
    }
}

/// A template with the built-in's current name and category.
pub open spec fn refreshed(p: PromptTemplate, d: PromptTemplate) -> PromptTemplate {
    PromptTemplate { name: d.name, category: d.category, ..p }
}

/// Placing built-in `d` at index `idx`: the first template with its id gets
/// the built-in's name and category and is moved to `idx`; without one,
/// the built-in itself is inserted there.  The flag tells whether anything
/// changed.
pub open spec fn merge_step(ps: Seq<PromptTemplate>, idx: int, d: PromptTemplate) -> (Seq<PromptTemplate>, bool) {
    let pos = first_index(ps, d.id@) as int;
    if pos < ps.len() {
        let p = ps[pos];
        let stale = p.category@ != d.category@ || p.name@ != d.name@;
        let q = if stale {
            refreshed(p, d)
        } else {
            p
        };
        if pos != idx {
            (ps.remove(pos).insert(idx, q), true)
        } else {
            (ps.update(pos, q), stale)
        }
    } else {
        (ps.insert(idx, d), true)
    }
}

/// Placing the first `k` built-ins, in order.
pub open spec fn merge_all(ps: Seq<PromptTemplate>, defaults: Seq<PromptTemplate>, k: int) -> (Seq<PromptTemplate>, bool)
    decreases k,
{
    if k <= 0 {
        (ps, false)
    } else {
        let prev = merge_all(ps, defaults, k - 1);
        let step = merge_step(prev.0, k - 1, defaults[k - 1]);
        (step.0, prev.1 || step.1)
    }
}

/// The stored templates with the current built-ins in front, in their
/// declared order; whether that changed anything (then the file is
/// written back).
pub open spec fn merged_prompts(ps: Seq<PromptTemplate>, defaults: Seq<PromptTemplate>) -> (Seq<PromptTemplate>, bool) {
    let kept = without_stale(ps, defaults);
    let m = merge_all(kept, defaults, defaults.len() as int);
    (m.0, kept.len() != ps.len() || m.1)
}

proof fn lemma_first_index(ps: Seq<PromptTemplate>, id: Seq<char>)
    ensures
        first_index(ps, id) <= ps.len(),
        first_index(ps, id) < ps.len() ==> ps[first_index(ps, id) as int].id@ == id,
        forall|j: int| 0 <= j < first_index(ps, id) ==> (#[trigger] ps[j]).id@ != id,
    decreases ps.len(),
{
    if ps.len() > 0 && ps[0].id@ != id {
        lemma_first_index(ps.drop_first(), id);
        assert forall|j: int| 0 <= j < first_index(ps, id) implies (#[trigger] ps[j]).id@ != id by {
            if j > 0 {
                assert(ps[j] == ps.drop_first()[j - 1]);
            }
        }
    }
}

fn find_id(ps: &Vec<PromptTemplate>, id: &str) -> (r: usize)
    ensures
        r == first_index(ps@, id@),
{
    proof {
        lemma_first_index(ps@, id@);
    }
    let mut i: usize = 0;
    while i < ps.len()
        invariant
            i <= ps@.len(),
            forall|j: int| 0 <= j < i ==> (#[trigger] ps@[j]).id@ != id@,
            first_index(ps@, id@) <= ps@.len(),
            first_index(ps@, id@) < ps@.len() ==> ps@[first_index(ps@, id@) as int].id@ == id@,
            forall|j: int| 0 <= j < first_index(ps@, id@) ==> (#[trigger] ps@[j]).id@ != id@,
        decreases ps@.len() - i,
    {
        if str_eq(ps[i].id.as_str(), id) {
            return i;
        }
        i = i + 1;
    }
    i
}

fn has_id_before(ps: &[PromptTemplate], n: usize, id: &str) -> (b: bool)
    requires
        n <= ps@.len(),
    ensures
        b == has_id(ps@.take(n as int), id@),
{
    let mut i: usize = 0;
    while i < n
        invariant
            i <= n <= ps@.len(),
            forall|j: int| 0 <= j < i ==> (#[trigger] ps@[j]).id@ != id@,
        decreases n - i,
    {
        if str_eq(ps[i].id.as_str(), id) {
            assert(ps@.take(n as int)[i as int] == ps@[i as int]);
            return true;
        }
        i = i + 1;
    }
    assert forall|j: int| 0 <= j < n implies (#[trigger] ps@.take(n as int)[j]).id@ != id@ by {
        assert(ps@.take(n as int)[j] == ps@[j]);
    }
    false
}

fn has_id_exec(ps: &[PromptTemplate], id: &str) -> (b: bool)
    ensures
        b == has_id(ps@, id@),
{
    let mut i: usize = 0;
    while i < ps.len()
        invariant
            i <= ps@.len(),
            forall|j: int| 0 <= j < i ==> (#[trigger] ps@[j]).id@ != id@,
        decreases ps@.len() - i,
    {
        if str_eq(ps[i].id.as_str(), id) {
            return true;
        }
        i = i + 1;
    }
    false
}

/// After placing `k` distinct built-ins, they are the first `k` templates.
proof fn lemma_merge_prefix(ps: Seq<PromptTemplate>, defaults: Seq<PromptTemplate>, k: int)
    requires
        0 <= k <= defaults.len(),
        distinct_ids(defaults),
    ensures
        merge_all(ps, defaults, k).0.len() >= k,
        forall|j: int| 0 <= j < k ==> (#[trigger] merge_all(ps, defaults, k).0[j]).id@ == defaults[j].id@,
        forall|j: int| 0 <= j < k ==> (#[trigger] merge_all(ps, defaults, k).0[j]).name@ == defaults[j].name@,
        forall|j: int| 0 <= j < k ==> (#[trigger] merge_all(ps, defaults, k).0[j]).category@ == defaults[j].category@,
    decreases k,
{
    if k > 0 {
        lemma_merge_prefix(ps, defaults, k - 1);
        let prev = merge_all(ps, defaults, k - 1).0;
        let d = defaults[k - 1];
        lemma_first_index(prev, d.id@);
        let pos = first_index(prev, d.id@) as int;
        // The earlier built-ins have other ids, so the match is not among them.
        assert(pos >= k - 1 || pos >= prev.len()) by {
            if pos < k - 1 && pos < prev.len() {
                assert(prev[pos].id@ == defaults[pos].id@);
                assert(defaults[pos].id@ != defaults[k - 1].id@);
            }
        }
        let r = merge_all(ps, defaults, k).0;
        assert forall|j: int| 0 <= j < k implies (#[trigger] r[j]).id@ == defaults[j].id@ && r[j].name@
            == defaults[j].name@ && r[j].category@ == defaults[j].category@ by {
            if j < k - 1 {
                assert(r[j] == prev[j]);
            }
        }
    }
}

/// Keeps the built-in templates present, current and in front: stale
/// built-ins are dropped, then each current built-in (ids distinct) is
/// placed at its index (see [`merge_step`]).  Returns the templates and
/// whether anything changed.
pub fn merge_builtin_prompts(file: PromptsFile, defaults: &[PromptTemplate]) -> (r: (PromptsFile, bool))
    requires
        distinct_ids(defaults@),
    ensures
        r.0.prompts@ == merged_prompts(file.prompts@, defaults@).0,
        r.1 == merged_prompts(file.prompts@, defaults@).1,
{
    let ps = file.prompts;
    let before = ps.len();
    let mut kept: Vec<PromptTemplate> = Vec::new();
    let mut i: usize = 0;
    while i < ps.len()
        invariant
            i <= ps@.len(),
            kept@ == without_stale(ps@.take(i as int), defaults@),
        decreases ps@.len() - i,
    {
        assert(ps@.take((i + 1) as int).drop_last() =~= ps@.take(i as int));
        if !ps[i].is_builtin || has_id_exec(defaults, ps[i].id.as_str()) {
            kept.push(copy_prompt(&ps[i]));
        }
        i = i + 1;
    }
    assert(ps@.take(i as int) =~= ps@);
    let mut changed = kept.len() != before;
    let ghost kept0 = kept@;
    let mut list = kept;
    let mut idx: usize = 0;
    while idx < defaults.len()
        invariant
            idx <= defaults@.len(),
            distinct_ids(defaults@),
            kept0 == without_stale(ps@, defaults@),
            list@ == merge_all(kept0, defaults@, idx as int).0,
            changed == (kept0.len() != ps@.len() || merge_all(kept0, defaults@, idx as int).1),
        decreases defaults@.len() - idx,
    {
        proof {
            lemma_merge_prefix(kept0, defaults@, idx as int);
            lemma_first_index(list@, defaults@[idx as int].id@);
        }
        let d = &defaults[idx];
        let pos = find_id(&list, d.id.as_str());
        let ghost pos_s = first_index(list@, d.id@) as int;
        assert(pos_s >= idx || pos_s >= list@.len()) by {
            if pos_s < idx && pos_s < list@.len() {
                assert(list@[pos_s].id@ == defaults@[pos_s].id@);
                assert(defaults@[pos_s].id@ != defaults@[idx as int].id@);
            }
        }
        if pos < list.len() {
            let mut item = copy_prompt(&list[pos]);
            let stale = !str_eq(item.category.as_str(), d.category.as_str()) || !str_eq(
                item.name.as_str(),
                d.name.as_str(),
            );
            if stale {
                item.category = d.category.clone();
                item.name = d.name.clone();
                changed = true;
            }
            if pos != idx {
                list.remove(pos);
                list.insert(idx, item);
                changed = true;
            } else {
                list.set(pos, item);
            }
        } else {
            list.insert(idx, copy_prompt(d));
            changed = true;
        }
        idx = idx + 1;
    }
    (PromptsFile { prompts: list }, changed)
}

/// After merging, the built-ins are the first templates, in their declared
/// order, with their current names and categories.
pub proof fn lemma_builtins_in_front(ps: Seq<PromptTemplate>, defaults: Seq<PromptTemplate>)
    requires
        distinct_ids(defaults),
    ensures
        merged_prompts(ps, defaults).0.len() >= defaults.len(),
        forall|j: int| 0 <= j < defaults.len() ==> (#[trigger] merged_prompts(ps, defaults).0[j]).id@
            == defaults[j].id@,
        forall|j: int| 0 <= j < defaults.len() ==> (#[trigger] merged_prompts(ps, defaults).0[j]).name@
            == defaults[j].name@,
        forall|j: int| 0 <= j < defaults.len() ==> (#[trigger] merged_prompts(ps, defaults).0[j]).category@
            == defaults[j].category@,
{
    lemma_merge_prefix(without_stale(ps, defaults), defaults, defaults.len() as int);
}

/// Every template marked built-in has the id of a current built-in.
pub open spec fn builtins_current(ps: Seq<PromptTemplate>, defaults: Seq<PromptTemplate>) -> bool {
    forall|i: int| 0 <= i < ps.len() && (#[trigger] ps[i]).is_builtin ==> has_id(defaults, ps[i].id@)
}

proof fn lemma_without_stale_current(ps: Seq<PromptTemplate>, defaults: Seq<PromptTemplate>)
    ensures
        builtins_current(without_stale(ps, defaults), defaults),
    decreases ps.len(),
{
    if ps.len() > 0 {
        lemma_without_stale_current(ps.drop_last(), defaults);
    }
}

proof fn lemma_without_stale_keeps(ps: Seq<PromptTemplate>, defaults: Seq<PromptTemplate>)
    requires
        builtins_current(ps, defaults),
    ensures
        without_stale(ps, defaults) == ps,
    decreases ps.len(),
{
    if ps.len() > 0 {
        let rest = ps.drop_last();
        assert(builtins_current(rest, defaults)) by {
            assert forall|i: int| 0 <= i < rest.len() && (#[trigger] rest[i]).is_builtin implies has_id(
                defaults,
                rest[i].id@,
            ) by {
                assert(rest[i] == ps[i]);
            }
        }
        lemma_without_stale_keeps(rest, defaults);
        assert(rest.push(ps.last()) =~= ps);
    }
}

/// Placing built-ins keeps every built-in-marked template current.
proof fn lemma_merge_all_current(ps: Seq<PromptTemplate>, defaults: Seq<PromptTemplate>, k: int)
    requires
        0 <= k <= defaults.len(),
        distinct_ids(defaults),
        builtins_current(ps, defaults),
    ensures
        builtins_current(merge_all(ps, defaults, k).0, defaults),
    decreases k,
{
    if k > 0 {
        lemma_merge_all_current(ps, defaults, k - 1);
        lemma_merge_prefix(ps, defaults, k - 1);
        let prev = merge_all(ps, defaults, k - 1).0;
        let d = defaults[k - 1];
        let idx = k - 1;
        lemma_first_index(prev, d.id@);
        let pos = first_index(prev, d.id@) as int;
        assert(pos >= k - 1 || pos >= prev.len()) by {
            if pos < k - 1 && pos < prev.len() {
                assert(prev[pos].id@ == defaults[pos].id@);
                assert(defaults[pos].id@ != defaults[k - 1].id@);
            }
        }
        assert(has_id(defaults, d.id@)) by {
            assert(defaults[k - 1].id@ == d.id@);
        }
        let r = merge_all(ps, defaults, k).0;
        if pos < prev.len() {
            let p = prev[pos];
            let stale = p.category@ != d.category@ || p.name@ != d.name@;
            let q = if stale { refreshed(p, d) } else { p };
            assert(q.id == p.id && q.is_builtin == p.is_builtin);
            if pos != idx {
                let mid = prev.remove(pos);
                assert(builtins_current(mid, defaults)) by {
                    assert forall|i: int| 0 <= i < mid.len() && (#[trigger] mid[i]).is_builtin implies has_id(
                        defaults,
                        mid[i].id@,
                    ) by {
                        if i < pos {
                            assert(mid[i] == prev[i]);
                        } else {
                            assert(mid[i] == prev[i + 1]);
                        }
                    }
                }
                assert forall|i: int| 0 <= i < r.len() && (#[trigger] r[i]).is_builtin implies has_id(
                    defaults,
                    r[i].id@,
                ) by {
                    if i < idx {
                        assert(r[i] == mid[i]);
                    } else if i == idx {
                        assert(r[i] == q);
                    } else {
                        assert(r[i] == mid[i - 1]);
                    }
                }
            } else {
                assert forall|i: int| 0 <= i < r.len() && (#[trigger] r[i]).is_builtin implies has_id(
                    defaults,
                    r[i].id@,
                ) by {
                    if i != pos {
                        assert(r[i] == prev[i]);
                    }
                }
            }
        } else {
            assert forall|i: int| 0 <= i < r.len() && (#[trigger] r[i]).is_builtin implies has_id(
                defaults,
                r[i].id@,
            ) by {
                if i < idx {
                    assert(r[i] == prev[i]);
                } else if i == idx {
                    assert(r[i] == d);
                } else {
                    assert(r[i] == prev[i - 1]);
                }
            }
        }
    }
}

/// Templates that already start with the current built-ins are left as
/// they are by placing them again.
proof fn lemma_merge_all_fixed(r: Seq<PromptTemplate>, defaults: Seq<PromptTemplate>, k: int)
    requires
        0 <= k <= defaults.len(),
        distinct_ids(defaults),
        r.len() >= defaults.len(),
        forall|j: int| 0 <= j < defaults.len() ==> (#[trigger] r[j]).id@ == defaults[j].id@,
        forall|j: int| 0 <= j < defaults.len() ==> (#[trigger] r[j]).name@ == defaults[j].name@,
        forall|j: int| 0 <= j < defaults.len() ==> (#[trigger] r[j]).category@ == defaults[j].category@,
    ensures
        merge_all(r, defaults, k) == (r, false),
    decreases k,
{
    if k > 0 {
        lemma_merge_all_fixed(r, defaults, k - 1);
        let d = defaults[k - 1];
        lemma_first_index(r, d.id@);
        let pos = first_index(r, d.id@) as int;
        assert(r[k - 1].id@ == d.id@);
        if pos < k - 1 {
            assert(r[pos].id@ == defaults[pos].id@);
            assert(defaults[pos].id@ != defaults[k - 1].id@);
        }
        assert(pos == k - 1);
        assert(r.update(k - 1, r[k - 1]) =~= r);
    }
}

/// Merging the built-ins is done once: merging the merged templates again
/// changes nothing, so the file is not rewritten at every start.
pub proof fn lemma_merge_is_stable(ps: Seq<PromptTemplate>, defaults: Seq<PromptTemplate>)
    requires
        distinct_ids(defaults),
    ensures
        merged_prompts(merged_prompts(ps, defaults).0, defaults) == (merged_prompts(ps, defaults).0, false),
{
    let kept = without_stale(ps, defaults);
    lemma_without_stale_current(ps, defaults);
    lemma_merge_all_current(kept, defaults, defaults.len() as int);
    let r = merged_prompts(ps, defaults).0;
    lemma_without_stale_keeps(r, defaults);
    lemma_merge_prefix(kept, defaults, defaults.len() as int);
    lemma_merge_all_fixed(r, defaults, defaults.len() as int);
}

// ── Validating before saving ──

/// What is wrong with template `i`, if anything: a blank name, a template
/// without the `{{text}}` placeholder, or an id used before.
pub open spec fn prompt_error(ps: Seq<PromptTemplate>, i: int) -> Option<Seq<char>> {
    let p = ps[i];
    if trim(p.name@).len() == 0 {
        Some("提示词名称不能为空"@)
    } else if !contains_seq(p.user_prompt_template@, "{{text}}"@) {
        Some("提示词「"@ + p.name@ + "」的用户提示词模板必须包含 {{text}} 占位符"@)
    } else if has_id(ps.take(i), p.id@) {
        Some("提示词 ID 重复: "@ + p.id@)
    } else {
        None
    }
}

/// The error of the first faulty template among the first `k`.
pub open spec fn first_prompt_error(ps: Seq<PromptTemplate>, k: int) -> Option<Seq<char>>
    decreases k,
{
    if k <= 0 {
        None
    } else {
        match first_prompt_error(ps, k - 1) {
            Some(e) => Some(e),
            None => prompt_error(ps, k - 1),
        }
    }
}

/// The first existing built-in among the first `k` that the new list lacks.
pub open spec fn first_missing_builtin(new: Seq<PromptTemplate>, existing: Seq<PromptTemplate>, k: int) -> Option<Seq<char>>
    decreases k,
{
    if k <= 0 {
        None
    } else {
        match first_missing_builtin(new, existing, k - 1) {
            Some(e) => Some(e),
            None => {
                let b = existing[k - 1];
                if b.is_builtin && !has_id(new, b.id@) {
                    Some("不能删除内置提示词「"@ + b.name@ + "」"@)
                } else {
                    None
                }
            },
        }
    }
}

/// Saving a template list fails on its first faulty template, then on the
/// first built-in of the stored list that it would delete.
pub open spec fn validate_prompts_spec(new: Seq<PromptTemplate>, existing: Seq<PromptTemplate>) -> Result<(), Seq<char>> {
    match first_prompt_error(new, new.len() as int) {
        Some(e) => Err(e),
        None => match first_missing_builtin(new, existing, existing.len() as int) {
            Some(e) => Err(e),
            None => Ok(()),
        },
    }
}

pub open spec fn unit_view(r: Result<(), String>) -> Result<(), Seq<char>> {
    match r {
        Ok(()) => Ok(()),
        Err(e) => Err(e@),
    }
}

/// Validates templates before they are saved over `existing`.
pub fn validate_prompts(new: &[PromptTemplate], existing: &[PromptTemplate]) -> (r: Result<(), String>)
    ensures
        unit_view(r) == validate_prompts_spec(new@, existing@),
{
    let mut i: usize = 0;
    while i < new.len()
        invariant
            i <= new@.len(),
            first_prompt_error(new@, i as int) is None,
        decreases new@.len() - i,
    {
        let p = &new[i];
        let name = chars_of(p.name.as_str());
        let t = trim_chars(name.as_slice());
        let tpl = chars_of(p.user_prompt_template.as_str());
        let mut err: Option<String> = None;
        if t.len() == 0 {
            err = Some(owned("提示词名称不能为空"));
        } else if !contains_lit(tpl.as_slice(), "{{text}}") {
            let mut e = owned("提示词「");
            push_str(&mut e, p.name.as_str());
            push_str(&mut e, "」的用户提示词模板必须包含 {{text}} 占位符");
            err = Some(e);
        } else {
            let dup = has_id_before(new, i, p.id.as_str());
            if dup {
                let mut e = owned("提示词 ID 重复: ");
                push_str(&mut e, p.id.as_str());
                err = Some(e);
            }
        }
        match err {
            Some(e) => {
                proof {
                    lemma_first_prompt_error_prefix(new@, i as int + 1);
                }
                return Err(e);
            },
            None => {},
        }
        i = i + 1;
    }
    let mut k: usize = 0;
    while k < existing.len()
        invariant
            k <= existing@.len(),
            first_prompt_error(new@, new@.len() as int) is None,
            first_missing_builtin(new@, existing@, k as int) is None,
        decreases existing@.len() - k,
    {
        let b = &existing[k];
        if b.is_builtin && !has_id_exec(new, b.id.as_str()) {
            let mut e = owned("不能删除内置提示词「");
            push_str(&mut e, b.name.as_str());
            push_str(&mut e, "」");
            proof {
                lemma_first_missing_prefix(new@, existing@, k as int + 1);
            }
            return Err(e);
        }
        k = k + 1;
    }
    Ok(())
}

proof fn lemma_first_prompt_error_prefix(ps: Seq<PromptTemplate>, n: int)
    requires
        0 <= n <= ps.len(),
        first_prompt_error(ps, n) is Some,
    ensures
        first_prompt_error(ps, ps.len() as int) == first_prompt_error(ps, n),
    decreases ps.len() - n,
{
    if n < ps.len() {
        lemma_first_prompt_error_prefix(ps, n + 1);
    }
}

proof fn lemma_first_missing_prefix(new: Seq<PromptTemplate>, existing: Seq<PromptTemplate>, n: int)
    requires
        0 <= n <= existing.len(),
        first_missing_builtin(new, existing, n) is Some,
    ensures
        first_missing_builtin(new, existing, existing.len() as int) == first_missing_builtin(new, existing, n),
    decreases existing.len() - n,
{
    if n < existing.len() {
        lemma_first_missing_prefix(new, existing, n + 1);
    }
}

} // verus!
