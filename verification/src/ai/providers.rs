//! AI provider instances and their per-instance API keys.
//!
//! Each instance has its own endpoint, model, stream switch and extra
//! request-body fields; its API key lives in the OS keyring under
//! `ai_provider_<id>`.
use vstd::prelude::*;
use crate::storage::{
    change_answer, load_credential, read_answer, read_call, save_call, save_credential,
    save_credential_spec, unit_result_view, CredentialError, KeyringLog,
};
pub use crate::storage::lookup_view;
use crate::text::{
    chars_of, contains_lit, contains_seq, ends_with, ends_with_lit, owned, push_str, starts_with,
    starts_with_lit, to_lowercase, trim, trim_chars, trim_str, unicode_lower,
};

verus! {

/// API protocol type.
#[derive(Debug, Clone, Copy, PartialEq, Eq, Structural)]
pub enum ApiProtocol {
    Openai,
    Gemini,
}

impl Default for ApiProtocol {
    fn default() -> (p: Self)
        ensures
            p == ApiProtocol::Openai,
    {
        ApiProtocol::Openai
    }
}

/// A single AI provider instance configuration.  `extra_body` holds the
/// compact JSON text of the extra fields merged into each request body.
#[derive(Debug, Clone)]
pub struct AiProvider {
    pub id: String,
    pub name: String,
    pub protocol: ApiProtocol,
    pub api_endpoint: String,
    pub model: String,
    pub stream: bool,
    pub extra_body: String,
}

/// Container for all AI provider instances.
#[derive(Debug, Clone)]
pub struct AiProvidersFile {
    pub providers: Vec<AiProvider>,
}

impl Default for AiProvidersFile {
    fn default() -> (f: Self)
        ensures
            f.providers@.len() == 0,
    {
        AiProvidersFile { providers: Vec::new() }
    }
}

/// Keyring key for a specific provider's API key.
pub open spec fn keyring_key_spec(provider_id: Seq<char>) -> Seq<char> {
    "ai_provider_"@ + provider_id
}

pub fn keyring_key(provider_id: &str) -> (k: String)
    ensures
        k@ == keyring_key_spec(provider_id@),
{
    let mut k = owned("ai_provider_");
    push_str(&mut k, provider_id);
    k
}

/// Whether a provider key exists, given what the keyring answered for it.
pub open spec fn key_presence(lookup: Result<Seq<char>, CredentialError>) -> Result<bool, Seq<char>> {
    match lookup {
        Ok(_) => Ok(true),
        Err(CredentialError::NoEntry) => Ok(false),
        Err(CredentialError::Store(e)) => Err("无法访问系统密钥链: "@ + e@),
        Err(CredentialError::Other(e)) => Err("无法访问系统密钥链: "@ + e@),
    }
}

/// Whether a provider key exists, given what the keyring answered for it:
/// a stored value means yes, a missing entry means no, and any other
/// failure is reported.
pub fn key_presence_of(o: Result<String, CredentialError>) -> (r: Result<bool, String>)
    ensures
        match r {
            Ok(b) => key_presence(lookup_view(o)) == Ok::<bool, Seq<char>>(b),
            Err(e) => key_presence(lookup_view(o)) == Err::<bool, Seq<char>>(e@),
        },
{
    match o {
        Ok(_) => Ok(true),
        Err(CredentialError::NoEntry) => Ok(false),
        Err(CredentialError::Store(e)) => {
            let mut m = owned("无法访问系统密钥链: ");
            push_str(&mut m, e.as_str());
            Err(m)
        },
        Err(CredentialError::Other(e)) => {
            let mut m = owned("无法访问系统密钥链: ");
            push_str(&mut m, e.as_str());
            Err(m)
        },
    }
}

pub open spec fn bool_result_view(r: Result<bool, String>) -> Result<bool, Seq<char>> {
    match r {
        Ok(b) => Ok(b),
        Err(e) => Err(e@),
    }
}

/// Check if a provider's API key exists in the keyring: one read of the
/// entry [`keyring_key`] of the id, whose answer [`key_presence_of`]
/// reads.
pub fn has_provider_key(log: &mut KeyringLog, provider_id: &str) -> (r: Result<bool, String>)
    ensures
        final(log).requests@ == old(log).requests@.push(
            read_call(keyring_key_spec(provider_id@), read_answer(final(log).requests@.last())),
        ),
        bool_result_view(r) == key_presence(read_answer(final(log).requests@.last())),
{
    let key = keyring_key(provider_id);
    let o = load_credential(log, key.as_str());
    key_presence_of(o)
}

/// The provider key a keyring lookup yields: the stored value, or nothing
/// on any failure.
pub open spec fn key_from_lookup(o: Result<Seq<char>, CredentialError>) -> Option<Seq<char>> {
    match o {
        Ok(v) => Some(v),
        Err(_) => None,
    }
}

pub open spec fn opt_string_view(r: Option<String>) -> Option<Seq<char>> {
    match r {
        Some(v) => Some(v@),
        None => None,
    }
}

/// The provider key the keyring's answer yields: the stored value, or
/// nothing on any failure.
pub fn provider_key_of(o: Result<String, CredentialError>) -> (r: Option<String>)
    ensures
        opt_string_view(r) == key_from_lookup(lookup_view(o)),
{
    match o {
        Ok(v) => Some(v),
        Err(_) => None,
    }
}

/// Load a provider's API key from the keyring: one read of the entry
/// [`keyring_key`] of the id, whose answer [`provider_key_of`] reads (the
/// stored value, or `None` on any failure).
pub fn load_provider_key(log: &mut KeyringLog, provider_id: &str) -> (r: Option<String>)
    ensures
        final(log).requests@ == old(log).requests@.push(
            read_call(keyring_key_spec(provider_id@), read_answer(final(log).requests@.last())),
        ),
        opt_string_view(r) == key_from_lookup(read_answer(final(log).requests@.last())),
{
    let key = keyring_key(provider_id);
    let o = load_credential(log, key.as_str());
    provider_key_of(o)
}

/// Save a provider's API key to the keyring, in the entry [`keyring_key`]
/// of the id (an empty key deletes it); the result is what
/// [`save_credential_spec`] makes of the keyring's answer.
pub fn save_provider_key(log: &mut KeyringLog, provider_id: &str, api_key: &str) -> (r: Result<(), String>)
    ensures
        final(log).requests@ == old(log).requests@.push(
            save_call(keyring_key_spec(provider_id@), api_key@, change_answer(final(log).requests@.last())),
        ),
        unit_result_view(r) == save_credential_spec(api_key@, change_answer(final(log).requests@.last())),
{
    let key = keyring_key(provider_id);
    save_credential(log, key.as_str(), api_key)
}

/// Clear a provider's API key: one deletion of the entry [`keyring_key`] of
/// the id.  A missing entry is no error: the result is `Ok` when the
/// keyring deleted the entry or had none.
pub fn clear_provider_key(log: &mut KeyringLog, provider_id: &str) -> (r: Result<(), String>)
    ensures
        final(log).requests@ == old(log).requests@.push(
            save_call(keyring_key_spec(provider_id@), Seq::<char>::empty(), change_answer(final(log).requests@.last())),
        ),
        unit_result_view(r) == save_credential_spec(Seq::<char>::empty(), change_answer(final(log).requests@.last())),
        (change_answer(final(log).requests@.last()) is Ok || change_answer(final(log).requests@.last())
            == Err::<(), CredentialError>(CredentialError::NoEntry)) <==> r is Ok,
{
    let key = keyring_key(provider_id);
    proof {
        reveal_strlit("");
    }
    save_credential(log, key.as_str(), "")
}

/// A provider's key is saved, cleared, read and tested in one and the same
/// keyring entry: this application's service name with [`keyring_key`] of
/// the id.
pub proof fn lemma_provider_key_entry(
    provider_id: Seq<char>,
    value: Seq<char>,
    read: Result<Seq<char>, CredentialError>,
    change: Result<(), CredentialError>,
)
    ensures
        crate::storage::call_entry(read_call(keyring_key_spec(provider_id), read))
            == (crate::storage::KEYRING_SERVICE@, keyring_key_spec(provider_id)),
        crate::storage::call_entry(save_call(keyring_key_spec(provider_id), value, change))
            == (crate::storage::KEYRING_SERVICE@, keyring_key_spec(provider_id)),
{
}

/// The library's part of clearing a key: clearing reports success when the
/// keyring deleted the entry or had none, and once the keyring answers a
/// read of the entry with no entry, [`has_provider_key`] gives `false` and
/// [`load_provider_key`] no key.  Whether the keyring removes the entry is
/// the operating system's part.
pub proof fn lemma_cleared_key_reads_as_absent()
    ensures
        save_credential_spec(""@, Err(CredentialError::NoEntry)) == Ok::<(), Seq<char>>(()),
        save_credential_spec(""@, Ok(())) == Ok::<(), Seq<char>>(()),
        key_presence(Err(CredentialError::NoEntry)) == Ok::<bool, Seq<char>>(false),
        key_from_lookup(Err(CredentialError::NoEntry)) is None,
{
    reveal_strlit("");
}

// ── Validation ──

/// Whether `text` parses (with `serde_json`) to a JSON object.
pub uninterp spec fn json_text_is_object(text: Seq<char>) -> bool;

/// `serde_json::from_str::<Value>(text)` and a test for the `Object`
/// variant.  Claimed: the answer is the named [`json_text_is_object`].
#[verifier::external_body]
fn json_is_object(text: &str) -> (b: bool)
    ensures
        b == json_text_is_object(text@),
{
    match serde_json::from_str::<serde_json::Value>(text) {
        Ok(serde_json::Value::Object(_)) => true,
        _ => false,
    }
}

/// What `validate_provider` decides for a provider whose fields are given.
pub open spec fn validate_provider_spec(
    name: Seq<char>,
    model: Seq<char>,
    endpoint: Seq<char>,
    protocol: ApiProtocol,
    extra_body: Seq<char>,
    extra_body_bytes: usize,
) -> Result<(), Seq<char>> {
    let lower = unicode_lower(trim(endpoint));
    if trim(name).len() == 0 {
        Err("供应商名称不能为空"@)
    } else if trim(model).len() == 0 {
        Err("模型名称不能为空"@)
    } else if trim(endpoint).len() == 0 {
        Err("API 端点不能为空"@)
    } else if !starts_with(lower, "http://"@) && !starts_with(lower, "https://"@) {
        Err("API 端点必须以 http:// 或 https:// 开头"@)
    } else if protocol == ApiProtocol::Openai && ends_with(endpoint, "/chat/completions"@) {
        Err("API 端点不需要包含 /chat/completions 路径（将自动拼接）"@)
    } else if protocol == ApiProtocol::Gemini && contains_seq(endpoint, "/models/"@) {
        Err("API 端点不需要包含 /models/ 路径（将自动拼接）"@)
    } else if protocol == ApiProtocol::Gemini && (contains_seq(endpoint, ":generateContent"@)
        || contains_seq(endpoint, ":streamGenerateContent"@)) {
        Err("API 端点不需要包含 :generateContent 路径（将自动拼接）"@)
    } else if !json_text_is_object(extra_body) {
        Err("自定义参数必须是 JSON 对象"@)
    } else if extra_body_bytes > 4096 {
        Err("自定义参数 JSON 不能超过 4KB"@)
    } else {
        Ok(())
    }
}

/// Validate a provider's fields before save.
pub fn validate_provider(provider: &AiProvider) -> (r: Result<(), String>)
    ensures
        crate::storage::unit_result_view(r) == validate_provider_spec(
            provider.name@,
            provider.model@,
            provider.api_endpoint@,
            provider.protocol,
            provider.extra_body@,
            vstd::utf8::encode_utf8(provider.extra_body@).len() as usize,
        ),
{
    let name = chars_of(provider.name.as_str());
    if trim_chars(name.as_slice()).len() == 0 {
        return Err(owned("供应商名称不能为空"));
    }
    let model = chars_of(provider.model.as_str());
    if trim_chars(model.as_slice()).len() == 0 {
        return Err(owned("模型名称不能为空"));
    }
    let ep = chars_of(provider.api_endpoint.as_str());
    if trim_chars(ep.as_slice()).len() == 0 {
        return Err(owned("API 端点不能为空"));
    }
    let trimmed = trim_str(provider.api_endpoint.as_str());
    let lower = to_lowercase(trimmed.as_str());
    let lc = chars_of(lower.as_str());
    if !starts_with_lit(lc.as_slice(), "http://") && !starts_with_lit(lc.as_slice(), "https://") {
        return Err(owned("API 端点必须以 http:// 或 https:// 开头"));
    }
    match provider.protocol {
        ApiProtocol::Openai => {
            if ends_with_lit(ep.as_slice(), "/chat/completions") {
                return Err(owned("API 端点不需要包含 /chat/completions 路径（将自动拼接）"));
            }
        },
        ApiProtocol::Gemini => {
            if contains_lit(ep.as_slice(), "/models/") {
                return Err(owned("API 端点不需要包含 /models/ 路径（将自动拼接）"));
            }
            if contains_lit(ep.as_slice(), ":generateContent") || contains_lit(
                ep.as_slice(),
                ":streamGenerateContent",
            ) {
                return Err(owned("API 端点不需要包含 :generateContent 路径（将自动拼接）"));
            }
        },
    }
    if !json_is_object(provider.extra_body.as_str()) {
        return Err(owned("自定义参数必须是 JSON 对象"));
    }
    if provider.extra_body.as_str().len() > 4096 {
        return Err(owned("自定义参数 JSON 不能超过 4KB"));
    }
    Ok(())
}

} // verus!
