//! The protocol side of the AI clients (OpenAI-compatible chat completions
//! and Gemini): endpoints, reserved body keys, secrets in logs, error
//! messages, and reading server-sent event streams.  The HTTP transfer is
//! done by the caller.
use vstd::prelude::*;
use super::providers::{AiProvider, ApiProtocol};
use crate::text::{
    chars_of, contains_seq, dec_seq, extend_chars, join_seq, join_strings, match_at, matches_at,
    owned, push_char, push_str, replace_chars, replace_seq, starts_with, str_eq,
    string_from_chars, to_vec_chars, trim, trim_chars, views,
};

verus! {

// ── Endpoints and request fields ──

/// `s` without all trailing `c` (as `str::trim_end_matches` with a char).
pub open spec fn trim_end_char(s: Seq<char>, c: char) -> Seq<char>
    decreases s.len(),
{
    if s.len() > 0 && s.last() == c {
        trim_end_char(s.drop_last(), c)
    } else {
        s
    }
}

/// `s` without all leading copies of the non-empty `p` (as
/// `str::trim_start_matches` with a string).
pub open spec fn trim_start_seq(s: Seq<char>, p: Seq<char>) -> Seq<char>
    decreases s.len(),
{
    if p.len() > 0 && matches_at(s, 0, p) {
        trim_start_seq(s.skip(p.len() as int), p)
    } else {
        s
    }
}

fn trim_end_slashes(s: &str) -> (r: String)
    ensures
        r@ == trim_end_char(s@, '/'),
{
    let v = chars_of(s);
    let mut n = v.len();
    assert(v@.take(n as int) =~= v@);
    while n > 0 && v[n - 1] == '/'
        invariant
            n <= v@.len(),
            v@ == s@,
            trim_end_char(v@.take(n as int), '/') == trim_end_char(s@, '/'),
        decreases n,
    {
        assert(v@.take(n as int).drop_last() =~= v@.take(n - 1));
        n = n - 1;
    }
    let mut t: Vec<char> = Vec::new();
    let mut k: usize = 0;
    while k < n
        invariant
            k <= n <= v@.len(),
            t@ == v@.take(k as int),
        decreases n - k,
    {
        t.push(v[k]);
        k = k + 1;
        assert(t@ =~= v@.take(k as int));
    }
    string_from_chars(t.as_slice())
}

fn strip_models_prefix(s: &str) -> (r: String)
    ensures
        r@ == trim_start_seq(s@, "models/"@),
{
    let v = chars_of(s);
    let p = chars_of("models/");
    proof {
        reveal_strlit("models/");
    }
    let mut i: usize = 0;
    assert(v@.skip(0) =~= v@);
    while i <= v.len() && match_at(v.as_slice(), i, p.as_slice())
        invariant
            i <= v@.len(),
            v@ == s@,
            p@ == "models/"@,
            p@.len() == 7,
            trim_start_seq(v@.skip(i as int), p@) == trim_start_seq(s@, p@),
        decreases v@.len() - i,
    {
        assert(v@.skip(i as int).subrange(0, 7) =~= v@.subrange(i as int, i + 7));
        assert(v@.skip(i as int).skip(7) =~= v@.skip(i + 7));
        i = i + p.len();
    }
    assert(!matches_at(v@.skip(i as int), 0, p@)) by {
        if matches_at(v@.skip(i as int), 0, p@) {
            assert(v@.skip(i as int).subrange(0, 7) =~= v@.subrange(i as int, i + 7));
        }
    }
    let mut t: Vec<char> = Vec::new();
    let mut k = i;
    while k < v.len()
        invariant
            i <= k <= v@.len(),
            t@ == v@.subrange(i as int, k as int),
        decreases v@.len() - k,
    {
        t.push(v[k]);
        k = k + 1;
        assert(t@ =~= v@.subrange(i as int, k as int));
    }
    assert(t@ =~= v@.skip(i as int));
    string_from_chars(t.as_slice())
}

/// The chat-completions URL: the endpoint without trailing slashes, then
/// `/chat/completions`.
pub fn openai_url(api_endpoint: &str) -> (url: String)
    ensures
        url@ == trim_end_char(api_endpoint@, '/') + "/chat/completions"@,
{
    let mut url = trim_end_slashes(api_endpoint);
    push_str(&mut url, "/chat/completions");
    url
}

/// The Gemini URL: the endpoint without trailing slashes, `/models/`, the
/// model without leading `models/`, then the streaming or the plain
/// generation method.
pub fn gemini_url(api_endpoint: &str, model: &str, stream: bool) -> (url: String)
    ensures
        url@ == trim_end_char(api_endpoint@, '/') + "/models/"@ + trim_start_seq(model@, "models/"@)
            + if stream {
            ":streamGenerateContent?alt=sse"@
        } else {
            ":generateContent"@
        },
{
    let mut url = trim_end_slashes(api_endpoint);
    push_str(&mut url, "/models/");
    let m = strip_models_prefix(model);
    push_str(&mut url, m.as_str());
    if stream {
        push_str(&mut url, ":streamGenerateContent?alt=sse");
    } else {
        push_str(&mut url, ":generateContent");
    }
    url
}

/// Keys of the extra body that cannot override the request's own fields:
/// `model`, `messages`, `stream` for OpenAI; `contents`,
/// `system_instruction` for Gemini.
pub open spec fn reserved_key(protocol: ApiProtocol, key: Seq<char>) -> bool {
    match protocol {
        ApiProtocol::Openai => key == "model"@ || key == "messages"@ || key == "stream"@,
        ApiProtocol::Gemini => key == "contents"@ || key == "system_instruction"@,
    }
}

/// Whether an extra-body key is reserved for the protocol.
pub fn is_reserved_key(protocol: &ApiProtocol, key: &str) -> (b: bool)
    ensures
        b == reserved_key(*protocol, key@),
{
    match protocol {
        ApiProtocol::Openai => str_eq(key, "model") || str_eq(key, "messages") || str_eq(key, "stream"),
        ApiProtocol::Gemini => str_eq(key, "contents") || str_eq(key, "system_instruction"),
    }
}

/// The positions among the first `n` extra-body keys, in order, of those
/// merged into a request: every key but the protocol's reserved ones.
pub open spec fn kept_positions(protocol: ApiProtocol, keys: Seq<String>, n: int) -> Seq<usize>
    decreases n,
{
    if n <= 0 {
        Seq::<usize>::empty()
    } else if reserved_key(protocol, keys[n - 1]@) {
        kept_positions(protocol, keys, n - 1)
    } else {
        kept_positions(protocol, keys, n - 1).push((n - 1) as usize)
    }
}

/// Which of a provider's extra-body fields go into a request: the
/// positions, in order, of the keys that the protocol does not reserve.
pub fn merged_extra_keys(protocol: &ApiProtocol, keys: &[String]) -> (idx: Vec<usize>)
    ensures
        idx@ == kept_positions(*protocol, keys@, keys@.len() as int),
{
    let mut idx: Vec<usize> = Vec::new();
    let mut i: usize = 0;
    while i < keys.len()
        invariant
            i <= keys@.len(),
            idx@ == kept_positions(*protocol, keys@, i as int),
        decreases keys@.len() - i,
    {
        if !is_reserved_key(protocol, keys[i].as_str()) {
            idx.push(i);
        }
        i = i + 1;
    }
    idx
}

/// The `Accept` header: an event stream when streaming.
pub fn accept_header(stream: bool) -> (h: &'static str)
    ensures
        h@ == if stream {
            "text/event-stream"@
        } else {
            "application/json"@
        },
{
    if stream {
        "text/event-stream"
    } else {
        "application/json"
    }
}

// ── Secrets and log lines ──

/// A secret as shown in logs: all stars when it has at most 8 characters
/// (at least one star), else its first and last 4 characters around `***`.
pub open spec fn masked(v: Seq<char>) -> Seq<char> {
    if v.len() <= 8 {
        Seq::new(if v.len() == 0 { 1 } else { v.len() }, |i: int| '*')
    } else {
        v.take(4) + "***"@ + v.skip(v.len() - 4)
    }
}

/// Masks a secret for logging.
pub fn mask_secret(value: &str) -> (m: String)
    ensures
        m@ == masked(value@),
{
    let v = chars_of(value);
    let n = v.len();
    if n <= 8 {
        let stars: usize = if n == 0 { 1 } else { n };
        let mut m = String::new();
        let mut i: usize = 0;
        while i < stars
            invariant
                i <= stars,
                m@ == Seq::new(i as nat, |k: int| '*'),
            decreases stars - i,
        {
            push_char(&mut m, '*');
            i = i + 1;
            assert(m@ =~= Seq::new(i as nat, |k: int| '*'));
        }
        m
    } else {
        let mut c: Vec<char> = Vec::new();
        let mut i: usize = 0;
        while i < 4
            invariant
                i <= 4,
                n == v@.len(),
                n > 8,
                c@ == v@.take(i as int),
            decreases 4 - i,
        {
            c.push(v[i]);
            i = i + 1;
            assert(c@ =~= v@.take(i as int));
        }
        proof {
            reveal_strlit("***");
        }
        c.push('*');
        c.push('*');
        c.push('*');
        let mut k = n - 4;
        while k < n
            invariant
                n - 4 <= k <= n,
                n == v@.len(),
                n > 8,
                c@ == v@.take(4) + "***"@ + v@.subrange(n - 4, k as int),
            decreases n - k,
        {
            c.push(v[k]);
            k = k + 1;
            assert(c@ =~= v@.take(4) + "***"@ + v@.subrange(n - 4, k as int));
        }
        assert(v@.subrange(n - 4, n as int) =~= v@.skip(n - 4));
        string_from_chars(c.as_slice())
    }
}

/// Header lines for the log: `name: value`, one per line.
pub fn format_header_lines(headers: &[(&str, String)]) -> (s: String)
    ensures
        s@ == join_seq(
            headers@.map_values(|h: (&str, String)| h.0@ + ": "@ + h.1@),
            "\n"@,
        ),
{
    let mut lines: Vec<String> = Vec::new();
    let mut i: usize = 0;
    while i < headers.len()
        invariant
            i <= headers@.len(),
            views(lines@) == headers@.take(i as int).map_values(|h: (&str, String)| h.0@ + ": "@ + h.1@),
        decreases headers@.len() - i,
    {
        let mut l = owned(headers[i].0);
        push_str(&mut l, ": ");
        push_str(&mut l, headers[i].1.as_str());
        let ghost prev = lines@;
        lines.push(l);
        assert(views(lines@) =~= views(prev).push(l@));
        i = i + 1;
        assert(views(lines@) =~= headers@.take(i as int).map_values(|h: (&str, String)| h.0@ + ": "@ + h.1@));
    }
    assert(headers@.take(i as int) =~= headers@);
    join_strings(lines.as_slice(), "\n")
}

/// The request headers shown in the log for a chat completion, with the key
/// masked.
pub fn logged_request_headers(api_key: &str, stream: bool) -> (h: Vec<(&'static str, String)>)
    ensures
        h@.len() == 3,
        h@[0].0@ == "authorization"@ && h@[0].1@ == "Bearer "@ + masked(api_key@),
        h@[1].0@ == "content-type"@ && h@[1].1@ == "application/json"@,
        h@[2].0@ == "accept"@ && h@[2].1@ == (if stream {
            "text/event-stream"@
        } else {
            "application/json"@
        }),
{
    let mut auth = owned("Bearer ");
    let m = mask_secret(api_key);
    push_str(&mut auth, m.as_str());
    let mut h: Vec<(&'static str, String)> = Vec::new();
    h.push(("authorization", auth));
    h.push(("content-type", owned("application/json")));
    h.push(("accept", owned(accept_header(stream))));
    h
}

// ── Errors ──

/// How an HTTP request failed before a response.
#[derive(Debug, Clone, Copy, PartialEq, Eq)]
pub enum RequestFailure {
    Timeout,
    Connect,
    Other,
}

/// The message for a failed request.  `label` names the API ("AI API",
/// "Gemini API"); `detail` is the transport's own text.
pub fn request_error_message(label: &str, failure: RequestFailure, connect_timeout_secs: u64, max_request_secs: u64, detail: &str) -> (m: String)
    ensures
        m@ == match failure {
            RequestFailure::Timeout => label@ + " 请求超时（"@ + dec_seq(max_request_secs as nat) + "秒）"@,
            RequestFailure::Connect => label@ + " 连接超时（"@ + dec_seq(connect_timeout_secs as nat) + "秒）: "@ + detail@,
            RequestFailure::Other => label@ + " 请求失败: "@ + detail@,
        },
{
    let mut m = owned(label);
    match failure {
        RequestFailure::Timeout => {
            push_str(&mut m, " 请求超时（");
            let n = crate::text::u64_to_dec(max_request_secs);
            push_str(&mut m, n.as_str());
            push_str(&mut m, "秒）");
        },
        RequestFailure::Connect => {
            push_str(&mut m, " 连接超时（");
            let n = crate::text::u64_to_dec(connect_timeout_secs);
            push_str(&mut m, n.as_str());
            push_str(&mut m, "秒）: ");
            push_str(&mut m, detail);
        },
        RequestFailure::Other => {
            push_str(&mut m, " 请求失败: ");
            push_str(&mut m, detail);
        },
    }
    m
}

/// The message for an unsuccessful HTTP status: the API's `error.message`
/// when the body has one, else the body itself.
pub fn status_error_message(label: &str, status: u16, api_message: Option<String>, body: &str) -> (m: String)
    ensures
        m@ == label@ + " 错误 ("@ + dec_seq(status as nat) + "): "@ + match api_message {
            Some(a) => a@,
            None => body@,
        },
{
    let mut m = owned(label);
    push_str(&mut m, " 错误 (");
    let n = crate::text::u64_to_dec(status as u64);
    push_str(&mut m, n.as_str());
    push_str(&mut m, "): ");
    match api_message {
        Some(a) => push_str(&mut m, a.as_str()),
        None => push_str(&mut m, body),
    }
    m
}

/// A status is a success when it is 2xx.
pub fn is_success_status(status: u16) -> (b: bool)
    ensures
        b == (200 <= status && status < 300),
{
    200 <= status && status < 300
}

/// Seconds without stream data before giving up: the connect timeout, at
/// least 5.
pub fn idle_timeout_secs(connect_timeout_secs: u64) -> (n: u64)
    ensures
        n == if connect_timeout_secs >= 5 { connect_timeout_secs } else { 5 },
{
    if connect_timeout_secs >= 5 {
        connect_timeout_secs
    } else {
        5
    }
}

} // verus!
