//! AI text optimization: provider instances, prompt templates and the pure
//! parts of the OpenAI-compatible / Gemini clients.
pub mod client;
pub mod prompts;
pub mod providers;
pub mod sse;

use vstd::prelude::*;
use crate::ids::{is_v4, new_uuid_string, uuid_hyphenated_seq};
use crate::text::{chars_of, owned, push_str, replace_chars, replace_seq, str_eq, trim, trim_chars, trim_str};
use client::{gemini_url, openai_url, trim_end_char, trim_start_seq};
use prompts::PromptTemplate;
use providers::{
    key_from_lookup, keyring_key_spec, load_provider_key, lookup_view, opt_string_view, validate_provider,
    validate_provider_spec, AiProvider, ApiProtocol,
};
use crate::storage::{read_answer, read_call, KeyringLog};
use crate::storage::CredentialError;

verus! {

/// AI optimization settings (stored in the application settings): the
/// enable switch, the active provider and prompt, and the timeouts.
#[derive(Debug, Clone, PartialEq, Eq)]
pub struct AiOptimizeSettings {
    pub enabled: bool,
    pub active_provider_id: String,
    pub active_prompt_id: String,
    /// Initial TCP/TLS connection timeout (seconds).
    pub connect_timeout_secs: u64,
    /// Maximum total request duration including streaming (seconds).
    pub max_request_secs: u64,
}

pub fn default_connect_timeout() -> (r: u64)
    ensures
        r == 5,
{
    5
}

pub fn default_max_request() -> (r: u64)
    ensures
        r == 60,
{
    60
}

impl Default for AiOptimizeSettings {
    fn default() -> (s: Self)
        ensures
            !s.enabled,
            s.active_provider_id@ == Seq::<char>::empty(),
            s.active_prompt_id@ == Seq::<char>::empty(),
            s.connect_timeout_secs == 5,
            s.max_request_secs == 60,
    {
        AiOptimizeSettings {
            enabled: false,
            active_provider_id: String::new(),
            active_prompt_id: String::new(),
            connect_timeout_secs: default_connect_timeout(),
            max_request_secs: default_max_request(),
        }
    }
}


// ── Provider list edits ──

/// The text fields a provider is saved with: name, endpoint and model
/// trimmed.
pub open spec fn trimmed_provider(p: AiProvider, q: AiProvider) -> bool {
    &&& q.name@ == trim(p.name@)
    &&& q.api_endpoint@ == trim(p.api_endpoint@)
    &&& q.model@ == trim(p.model@)
    &&& q.protocol == p.protocol
    &&& q.stream == p.stream
    &&& q.extra_body == p.extra_body
}

pub open spec fn unit_view(r: Result<(), String>) -> Result<(), Seq<char>> {
    match r {
        Ok(()) => Ok(()),
        Err(e) => Err(e@),
    }
}

/// A provider with its name, endpoint and model trimmed, validated.
pub fn prepare_updated_provider(provider: AiProvider) -> (r: Result<AiProvider, String>)
    ensures
        match r {
            Ok(q) => trimmed_provider(provider, q) && q.id == provider.id
                && validate_provider_spec(q.name@, q.model@, q.api_endpoint@, q.protocol, q.extra_body@,
                    vstd::utf8::encode_utf8(q.extra_body@).len() as usize) == Ok::<(), Seq<char>>(()),
            Err(e) => validate_provider_spec(trim(provider.name@), trim(provider.model@), trim(provider.api_endpoint@),
                provider.protocol, provider.extra_body@, vstd::utf8::encode_utf8(provider.extra_body@).len() as usize)
                == Err::<(), Seq<char>>(e@),
        },
{
    let mut q = provider;
    q.name = trim_str(q.name.as_str());
    q.api_endpoint = trim_str(q.api_endpoint.as_str());
    q.model = trim_str(q.model.as_str());
    match validate_provider(&q) {
        Ok(()) => Ok(q),
        Err(e) => Err(e),
    }
}

/// A new provider: a fresh random id (the text of a version-4 UUID), then
/// trimmed and validated.
pub fn prepare_new_provider(provider: AiProvider) -> (r: Result<AiProvider, String>)
    ensures
        match r {
            Ok(q) => trimmed_provider(provider, q) && (exists|n: u128| #[trigger] is_v4(n) && q.id@ == uuid_hyphenated_seq(n)),
            Err(e) => validate_provider_spec(trim(provider.name@), trim(provider.model@), trim(provider.api_endpoint@),
                provider.protocol, provider.extra_body@, vstd::utf8::encode_utf8(provider.extra_body@).len() as usize)
                == Err::<(), Seq<char>>(e@),
        },
{
    let mut p = provider;
    p.id = new_uuid_string();
    prepare_updated_provider(p)
}

/// Replaces the provider with the same id; fails when there is none.
pub fn replace_provider(providers: &mut Vec<AiProvider>, updated: AiProvider) -> (r: Result<(), String>)
    ensures
        match r {
            Ok(()) => exists|i: int| 0 <= i < old(providers)@.len() && old(providers)@[i].id@ == updated.id@
                && (forall|j: int| 0 <= j < i ==> (#[trigger] old(providers)@[j]).id@ != updated.id@)
                && final(providers)@ == old(providers)@.update(i, updated),
            Err(e) => final(providers)@ == old(providers)@ && e@ == "供应商 ID 不存在: "@ + updated.id@
                && forall|j: int| 0 <= j < old(providers)@.len() ==> (#[trigger] old(providers)@[j]).id@ != updated.id@,
        },
{
    let mut i: usize = 0;
    while i < providers.len()
        invariant
            i <= providers@.len(),
            providers@ == old(providers)@,
            forall|j: int| 0 <= j < i ==> (#[trigger] providers@[j]).id@ != updated.id@,
        decreases providers@.len() - i,
    {
        if str_eq(providers[i].id.as_str(), updated.id.as_str()) {
            providers.set(i, updated);
            return Ok(());
        }
        i = i + 1;
    }
    let mut e = owned("供应商 ID 不存在: ");
    push_str(&mut e, updated.id.as_str());
    Err(e)
}

/// The providers whose id differs from `id`, in order.
pub open spec fn without_id(ps: Seq<AiProvider>, id: Seq<char>) -> Seq<AiProvider>
    decreases ps.len(),
{
    if ps.len() == 0 {
        Seq::empty()
    } else if ps.last().id@ == id {
        without_id(ps.drop_last(), id)
    } else {
        without_id(ps.drop_last(), id).push(ps.last())
    }
}

/// A copy of a provider.
pub fn copy_provider(p: &AiProvider) -> (c: AiProvider)
    ensures
        c == *p,
{
    AiProvider {
        id: p.id.clone(),
        name: p.name.clone(),
        protocol: p.protocol,
        api_endpoint: p.api_endpoint.clone(),
        model: p.model.clone(),
        stream: p.stream,
        extra_body: p.extra_body.clone(),
    }
}

/// Removes every provider with the id; fails when there is none.
pub fn remove_provider(providers: &mut Vec<AiProvider>, id: &str) -> (r: Result<(), String>)
    ensures
        match r {
            Ok(()) => final(providers)@ == without_id(old(providers)@, id@) && final(providers)@.len() != old(providers)@.len(),
            Err(e) => final(providers)@ == old(providers)@ && without_id(old(providers)@, id@).len() == old(providers)@.len()
                && e@ == "供应商 ID 不存在: "@ + id@,
        },
{
    let mut kept: Vec<AiProvider> = Vec::new();
    let mut i: usize = 0;
    while i < providers.len()
        invariant
            i <= providers@.len(),
            providers@ == old(providers)@,
            kept@ == without_id(providers@.take(i as int), id@),
        decreases providers@.len() - i,
    {
        assert(providers@.take((i + 1) as int).drop_last() =~= providers@.take(i as int));
        if !str_eq(providers[i].id.as_str(), id) {
            kept.push(copy_provider(&providers[i]));
        }
        i = i + 1;
    }
    assert(providers@.take(i as int) =~= providers@);
    if kept.len() == providers.len() {
        let mut e = owned("供应商 ID 不存在: ");
        push_str(&mut e, id);
        return Err(e);
    }
    *providers = kept;
    Ok(())
}

/// After deleting provider `id`: when it was the active one, AI
/// optimization is switched off and the selection cleared.  Returns the
/// settings and whether they changed.
pub fn ai_settings_after_delete(settings: &AiOptimizeSettings, id: &str) -> (r: (AiOptimizeSettings, bool))
    ensures
        r.1 == (settings.active_provider_id@ == id@),
        r.1 ==> !r.0.enabled && r.0.active_provider_id@.len() == 0,
        !r.1 ==> r.0 == *settings,
        r.0.active_prompt_id == settings.active_prompt_id,
        r.0.connect_timeout_secs == settings.connect_timeout_secs,
        r.0.max_request_secs == settings.max_request_secs,
{
    let copy = AiOptimizeSettings {
        enabled: settings.enabled,
        active_provider_id: settings.active_provider_id.clone(),
        active_prompt_id: settings.active_prompt_id.clone(),
        connect_timeout_secs: settings.connect_timeout_secs,
        max_request_secs: settings.max_request_secs,
    };
    if str_eq(settings.active_provider_id.as_str(), id) {
        let mut s = copy;
        s.active_provider_id = String::new();
        s.enabled = false;
        (s, true)
    } else {
        (copy, false)
    }
}

// ── Optimizing a text ──

/// What AI optimization of a text does.
#[derive(Debug, Clone)]
pub enum AiOptimizePlan {
    /// Optimization is off: the text stays as it is.
    Unchanged(String),
    /// Send the text to the provider.
    Request {
        provider: AiProvider,
        api_key: String,
        system_prompt: String,
        user_message: String,
    },
}

/// The index of the first provider with id `id` (`ps.len()` if none).
pub open spec fn provider_index(ps: Seq<AiProvider>, id: Seq<char>) -> int
    decreases ps.len(),
{
    if ps.len() == 0 {
        0
    } else if ps[0].id@ == id {
        0
    } else {
        provider_index(ps.drop_first(), id) + 1
    }
}

/// The index of the first template with id `id` (`ps.len()` if none).
pub open spec fn prompt_index(ps: Seq<PromptTemplate>, id: Seq<char>) -> int
    decreases ps.len(),
{
    if ps.len() == 0 {
        0
    } else if ps[0].id@ == id {
        0
    } else {
        prompt_index(ps.drop_first(), id) + 1
    }
}

/// The template used: the active one, or the first when none is active or
/// the active one is gone.
pub open spec fn chosen_prompt(ps: Seq<PromptTemplate>, active: Seq<char>) -> int {
    if active.len() > 0 && prompt_index(ps, active) < ps.len() {
        prompt_index(ps, active)
    } else {
        0
    }
}

proof fn lemma_provider_index(ps: Seq<AiProvider>, id: Seq<char>)
    ensures
        0 <= provider_index(ps, id) <= ps.len(),
        provider_index(ps, id) < ps.len() ==> ps[provider_index(ps, id)].id@ == id,
    decreases ps.len(),
{
    if ps.len() > 0 && ps[0].id@ != id {
        lemma_provider_index(ps.drop_first(), id);
    }
}

proof fn lemma_prompt_index(ps: Seq<PromptTemplate>, id: Seq<char>)
    ensures
        0 <= prompt_index(ps, id) <= ps.len(),
        prompt_index(ps, id) < ps.len() ==> ps[prompt_index(ps, id)].id@ == id,
    decreases ps.len(),
{
    if ps.len() > 0 && ps[0].id@ != id {
        lemma_prompt_index(ps.drop_first(), id);
    }
}

fn find_provider(ps: &[AiProvider], id: &str) -> (i: usize)
    ensures
        i == provider_index(ps@, id@),
{
    let mut i: usize = 0;
    assert(ps@.skip(0) =~= ps@);
    while i < ps.len()
        invariant
            i <= ps@.len(),
            provider_index(ps@.skip(i as int), id@) + i == provider_index(ps@, id@),
        decreases ps@.len() - i,
    {
        assert(ps@.skip(i as int)[0] == ps@[i as int]);
        if str_eq(ps[i].id.as_str(), id) {
            return i;
        }
        assert(ps@.skip(i as int).drop_first() =~= ps@.skip(i + 1));
        i = i + 1;
    }
    i
}

fn find_prompt(ps: &[PromptTemplate], id: &str) -> (i: usize)
    ensures
        i == prompt_index(ps@, id@),
{
    let mut i: usize = 0;
    assert(ps@.skip(0) =~= ps@);
    while i < ps.len()
        invariant
            i <= ps@.len(),
            prompt_index(ps@.skip(i as int), id@) + i == prompt_index(ps@, id@),
        decreases ps@.len() - i,
    {
        assert(ps@.skip(i as int)[0] == ps@[i as int]);
        if str_eq(ps[i].id.as_str(), id) {
            return i;
        }
        assert(ps@.skip(i as int).drop_first() =~= ps@.skip(i + 1));
        i = i + 1;
    }
    i
}

/// What optimizing `text` does, given the provider's key as the keyring
/// returned it (`None` when there is none).  Off: the text is kept.  Else,
/// in this order, it fails without an active provider, when the active
/// provider is gone, without its key, or without any template; otherwise
/// the request uses the chosen template, with `{{text}}` replaced by the
/// text.
pub fn plan_ai_optimize_with_key(settings: &AiOptimizeSettings, providers: &[AiProvider], prompts: &[PromptTemplate], text: String, api_key: Option<String>) -> (r: Result<AiOptimizePlan, String>)
    ensures
        !settings.enabled ==> (r matches Ok(AiOptimizePlan::Unchanged(t)) && t == text),
        settings.enabled && settings.active_provider_id@.len() == 0 ==> (r matches Err(e) && e@ == "未选择 AI 供应商"@),
        settings.enabled && settings.active_provider_id@.len() > 0 ==> {
            let pi = provider_index(providers@, settings.active_provider_id@);
            if pi >= providers@.len() {
                r matches Err(e) && e@ == "所选 AI 供应商不存在，请在设置中重新选择"@
            } else if api_key is None {
                r matches Err(e) && e@ == "AI 供应商「"@ + providers@[pi].name@ + "」的 API Key 未配置"@
            } else if prompts@.len() == 0 {
                r matches Err(e) && e@ == "未找到可用的提示词模板"@
            } else {
                let p = prompts@[chosen_prompt(prompts@, settings.active_prompt_id@)];
                r matches Ok(AiOptimizePlan::Request { provider, api_key: k, system_prompt, user_message })
                    && provider == providers@[pi]
                    && api_key == Some(k)
                    && system_prompt@ == p.system_prompt@
                    && user_message@ == replace_seq(p.user_prompt_template@, "{{text}}"@, text@)
            }
        },
{
    if !settings.enabled {
        return Ok(AiOptimizePlan::Unchanged(text));
    }
    if settings.active_provider_id.as_str().is_empty() {
        return Err(owned("未选择 AI 供应商"));
    }
    proof {
        lemma_provider_index(providers@, settings.active_provider_id@);
        lemma_prompt_index(prompts@, settings.active_prompt_id@);
    }
    let pi = find_provider(providers, settings.active_provider_id.as_str());
    if pi >= providers.len() {
        return Err(owned("所选 AI 供应商不存在，请在设置中重新选择"));
    }
    let provider = copy_provider(&providers[pi]);
    let api_key = match api_key {
        Some(k) => k,
        None => {
            let mut e = owned("AI 供应商「");
            push_str(&mut e, provider.name.as_str());
            push_str(&mut e, "」的 API Key 未配置");
            return Err(e);
        },
    };
    if prompts.len() == 0 {
        return Err(owned("未找到可用的提示词模板"));
    }
    let chosen = if settings.active_prompt_id.as_str().is_empty() {
        0
    } else {
        let k = find_prompt(prompts, settings.active_prompt_id.as_str());
        if k < prompts.len() {
            k
        } else {
            0
        }
    };
    let p = &prompts[chosen];
    let tpl = chars_of(p.user_prompt_template.as_str());
    let pat = chars_of("{{text}}");
    let txt = chars_of(text.as_str());
    proof {
        reveal_strlit("{{text}}");
    }
    let msg = replace_chars(tpl.as_slice(), pat.as_slice(), txt.as_slice());
    Ok(AiOptimizePlan::Request {
        provider,
        api_key,
        system_prompt: p.system_prompt.clone(),
        user_message: crate::text::string_from_chars(msg.as_slice()),
    })
}

/// What optimizing `text` gives, when the active provider's key as the
/// keyring returned it is `key` (see [`plan_ai_optimize_with_key`]).
pub open spec fn plan_matches(
    settings: AiOptimizeSettings,
    providers: Seq<AiProvider>,
    prompts: Seq<PromptTemplate>,
    text: String,
    key: Option<Seq<char>>,
    r: Result<AiOptimizePlan, String>,
) -> bool {
    &&& !settings.enabled ==> (r matches Ok(AiOptimizePlan::Unchanged(t)) && t == text)
    &&& settings.enabled && settings.active_provider_id@.len() == 0 ==> (r matches Err(e) && e@ == "未选择 AI 供应商"@)
    &&& settings.enabled && settings.active_provider_id@.len() > 0 ==> {
        let pi = provider_index(providers, settings.active_provider_id@);
        if pi >= providers.len() {
            r matches Err(e) && e@ == "所选 AI 供应商不存在，请在设置中重新选择"@
        } else if key is None {
            r matches Err(e) && e@ == "AI 供应商「"@ + providers[pi].name@ + "」的 API Key 未配置"@
        } else if prompts.len() == 0 {
            r matches Err(e) && e@ == "未找到可用的提示词模板"@
        } else {
            let p = prompts[chosen_prompt(prompts, settings.active_prompt_id@)];
            r matches Ok(AiOptimizePlan::Request { provider, api_key: k, system_prompt, user_message })
                && provider == providers[pi]
                && key == Some(k@)
                && system_prompt@ == p.system_prompt@
                && user_message@ == replace_seq(p.user_prompt_template@, "{{text}}"@, text@)
        }
    }
}

/// Whether optimizing with these settings looks up a key: optimization is
/// on and the active provider exists.
pub open spec fn needs_key(settings: AiOptimizeSettings, providers: Seq<AiProvider>) -> bool {
    settings.enabled && settings.active_provider_id@.len() > 0 && provider_index(
        providers,
        settings.active_provider_id@,
    ) < providers.len()
}

/// What optimizing `text` does with the current settings.  When a key is
/// needed, exactly one keyring read is made, of the active provider's entry
/// ([`keyring_key_spec`] of its id), and the plan is the one for the key
/// that read yields; otherwise the keyring is not asked.
pub fn plan_ai_optimize(
    log: &mut KeyringLog,
    settings: &AiOptimizeSettings,
    providers: &[AiProvider],
    prompts: &[PromptTemplate],
    text: String,
) -> (r: Result<AiOptimizePlan, String>)
    ensures
        needs_key(*settings, providers@) ==> {
            let pi = provider_index(providers@, settings.active_provider_id@);
            let a = read_answer(final(log).requests@.last());
            &&& final(log).requests@ == old(log).requests@.push(read_call(keyring_key_spec(providers@[pi].id@), a))
            &&& plan_matches(*settings, providers@, prompts@, text, key_from_lookup(a), r)
        },
        !needs_key(*settings, providers@) ==> final(log).requests@ == old(log).requests@
            && plan_matches(*settings, providers@, prompts@, text, None, r),
{
    let key = if settings.enabled && !settings.active_provider_id.as_str().is_empty() {
        let pi = find_provider(providers, settings.active_provider_id.as_str());
        if pi < providers.len() {
            load_provider_key(log, providers[pi].id.as_str())
        } else {
            None
        }
    } else {
        None
    };
    plan_ai_optimize_with_key(settings, providers, prompts, text, key)
}

// ── Testing a provider ──

/// The fixed question of a provider test.
pub open spec fn test_question() -> Seq<char> {
    "请回复「测试成功」两个字。"@
}

/// How a provider test is sent.
#[derive(Debug, Clone)]
pub struct TestRequest {
    pub url: String,
    pub is_gemini: bool,
    pub auth_header_name: String,
    pub auth_header_value: String,
    pub question: String,
}

/// Checks a provider and key for a test and builds its request: Gemini's
/// `generateContent` with the key in `x-goog-api-key`, or chat completions
/// with a bearer token.
pub fn prepare_test_request(provider: &AiProvider, api_key: &str) -> (r: Result<TestRequest, String>)
    ensures
        validate_provider_spec(provider.name@, provider.model@, provider.api_endpoint@, provider.protocol,
            provider.extra_body@, vstd::utf8::encode_utf8(provider.extra_body@).len() as usize) matches Err(e)
            ==> (r matches Err(m) && m@ == e),
        validate_provider_spec(provider.name@, provider.model@, provider.api_endpoint@, provider.protocol,
            provider.extra_body@, vstd::utf8::encode_utf8(provider.extra_body@).len() as usize) is Ok
            ==> if trim(api_key@).len() == 0 {
            r matches Err(m) && m@ == "API Key 不能为空"@
        } else {
            r matches Ok(t) && t.question@ == test_question() && if provider.protocol == ApiProtocol::Gemini {
                &&& t.is_gemini
                &&& t.url@ == trim_end_char(provider.api_endpoint@, '/') + "/models/"@ + trim_start_seq(provider.model@, "models/"@) + ":generateContent"@
                &&& t.auth_header_name@ == "x-goog-api-key"@
                &&& t.auth_header_value@ == api_key@
            } else {
                &&& !t.is_gemini
                &&& t.url@ == trim_end_char(provider.api_endpoint@, '/') + "/chat/completions"@
                &&& t.auth_header_name@ == "Authorization"@
                &&& t.auth_header_value@ == "Bearer "@ + api_key@
            }
        },
{
    validate_provider(provider)?;
    let k = chars_of(api_key);
    if trim_chars(k.as_slice()).len() == 0 {
        return Err(owned("API Key 不能为空"));
    }
    match provider.protocol {
        ApiProtocol::Gemini => Ok(TestRequest {
            url: gemini_url(provider.api_endpoint.as_str(), provider.model.as_str(), false),
            is_gemini: true,
            auth_header_name: owned("x-goog-api-key"),
            auth_header_value: owned(api_key),
            question: owned("请回复「测试成功」两个字。"),
        }),
        ApiProtocol::Openai => {
            let mut v = owned("Bearer ");
            push_str(&mut v, api_key);
            Ok(TestRequest {
                url: openai_url(provider.api_endpoint.as_str()),
                is_gemini: false,
                auth_header_name: owned("Authorization"),
                auth_header_value: v,
                question: owned("请回复「测试成功」两个字。"),
            })
        },
    }
}

/// The message of a failed test request.
pub fn test_request_error_message(failure: client::RequestFailure, connect_timeout_secs: u64, max_request_secs: u64, detail: &str) -> (m: String)
    ensures
        m@ == match failure {
            client::RequestFailure::Timeout => "请求超时（"@ + crate::text::dec_seq(max_request_secs as nat) + "秒）"@,
            client::RequestFailure::Connect => "连接超时（"@ + crate::text::dec_seq(connect_timeout_secs as nat) + "秒）: "@ + detail@,
            client::RequestFailure::Other => "请求失败: "@ + detail@,
        },
{
    match failure {
        client::RequestFailure::Timeout => {
            let mut m = owned("请求超时（");
            let n = crate::text::u64_to_dec(max_request_secs);
            push_str(&mut m, n.as_str());
            push_str(&mut m, "秒）");
            m
        },
        client::RequestFailure::Connect => {
            let mut m = owned("连接超时（");
            let n = crate::text::u64_to_dec(connect_timeout_secs);
            push_str(&mut m, n.as_str());
            push_str(&mut m, "秒）: ");
            push_str(&mut m, detail);
            m
        },
        client::RequestFailure::Other => {
            let mut m = owned("请求失败: ");
            push_str(&mut m, detail);
            m
        },
    }
}

/// The message of a test answered with an unsuccessful status: the API's
/// `error.message`, else the body.
pub fn test_status_error_message(status: u16, api_message: Option<String>, body: &str) -> (m: String)
    ensures
        m@ == "HTTP "@ + crate::text::dec_seq(status as nat) + " — "@ + match api_message {
            Some(a) => a@,
            None => body@,
        },
{
    let mut m = owned("HTTP ");
    let n = crate::text::u64_to_dec(status as u64);
    push_str(&mut m, n.as_str());
    push_str(&mut m, " — ");
    match api_message {
        Some(a) => push_str(&mut m, a.as_str()),
        None => push_str(&mut m, body),
    }
    m
}

/// The fields of a test's answer, as read from its JSON (each `None` when
/// missing or not of the expected type): the reply text, the model that
/// answered and the three token counts.
#[derive(Debug, Clone)]
pub struct TestAnswerFields {
    pub content: Option<String>,
    pub model: Option<String>,
    pub prompt_tokens: Option<u64>,
    pub completion_tokens: Option<u64>,
    pub total_tokens: Option<u64>,
}

/// What a provider test reports of the answer.
#[derive(Debug, Clone)]
pub struct TestReport {
    pub content: String,
    pub model: String,
    pub prompt_tokens: u64,
    pub completion_tokens: u64,
    pub total_tokens: u64,
}

pub open spec fn text_or(o: Option<String>, d: Seq<char>) -> Seq<char> {
    match o {
        Some(v) => v@,
        None => d,
    }
}

pub open spec fn count_or_zero(o: Option<u64>) -> u64 {
    match o {
        Some(n) => n,
        None => 0,
    }
}

/// The test report for an answer: a missing reply text is empty, a missing
/// model is the configured one, and missing token counts are 0.
pub fn test_report(fields: TestAnswerFields, configured_model: &str) -> (r: TestReport)
    ensures
        r.content@ == text_or(fields.content, Seq::<char>::empty()),
        r.model@ == text_or(fields.model, configured_model@),
        r.prompt_tokens == count_or_zero(fields.prompt_tokens),
        r.completion_tokens == count_or_zero(fields.completion_tokens),
        r.total_tokens == count_or_zero(fields.total_tokens),
{
    let content = match fields.content {
        Some(c) => c,
        None => String::new(),
    };
    let model = match fields.model {
        Some(m) => m,
        None => owned(configured_model),
    };
    let count = |o: Option<u64>| -> (n: u64)
        ensures
            n == count_or_zero(o),
    {
        match o {
            Some(n) => n,
            None => 0,
        }
    };
    TestReport {
        content,
        model,
        prompt_tokens: count(fields.prompt_tokens),
        completion_tokens: count(fields.completion_tokens),
        total_tokens: count(fields.total_tokens),
    }
}

} // verus!
