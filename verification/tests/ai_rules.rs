use speakin::ai::client::{
    format_header_lines, gemini_url, idle_timeout_secs, is_reserved_key, logged_request_headers,
    merged_extra_keys,
    mask_secret, openai_url, request_error_message, status_error_message, RequestFailure,
};
use speakin::ai::prompts::{merge_builtin_prompts, validate_prompts, PromptTemplate, PromptsFile};
use speakin::ai::providers::{key_presence_of, provider_key_of, AiProvider, ApiProtocol};
use speakin::storage::CredentialError;
use speakin::ai::sse::{
    gemini_non_streaming_content, gemini_text, non_streaming_content, sse_data,
    stream_timeout_message, ChunkEffect, CompletionStream, GeminiPart, OpenAiChunk, SseBuffer,
    SseData,
};
use speakin::ai::{
    ai_settings_after_delete, plan_ai_optimize_with_key, prepare_test_request,
    prepare_updated_provider, remove_provider, replace_provider, test_report, AiOptimizePlan,
    AiOptimizeSettings, TestAnswerFields,
};
use speakin::ids::{evt_id, new_uuid_string, uuid_hyphenated, uuid_simple};

fn prompt(id: &str, name: &str, builtin: bool) -> PromptTemplate {
    PromptTemplate {
        id: id.to_string(),
        name: name.to_string(),
        category: "c".to_string(),
        system_prompt: format!("sys-{}", id),
        user_prompt_template: "请优化：{{text}}".to_string(),
        is_builtin: builtin,
    }
}

fn provider(id: &str) -> AiProvider {
    AiProvider {
        id: id.to_string(),
        name: format!("name-{}", id),
        protocol: ApiProtocol::Openai,
        api_endpoint: "https://api.example.com/v1/".to_string(),
        model: "gpt".to_string(),
        stream: false,
        extra_body: "{}".to_string(),
    }
}

#[test]
fn builtins_are_refreshed_and_put_in_front() {
    let mut stale_builtin = prompt("old", "Old", true);
    stale_builtin.category = "x".to_string();
    let mut user_copy = prompt("b1", "Renamed", true);
    user_copy.system_prompt = "mine".to_string();
    let file = PromptsFile { prompts: vec![prompt("u1", "Mine", false), stale_builtin, user_copy] };
    let defaults = vec![prompt("b1", "Polish", true), prompt("b2", "Translate", true)];
    let (merged, changed) = merge_builtin_prompts(file, &defaults);
    assert!(changed);
    let ids: Vec<&str> = merged.prompts.iter().map(|p| p.id.as_str()).collect();
    assert_eq!(ids, vec!["b1", "b2", "u1"]);
    assert_eq!(merged.prompts[0].name, "Polish");
    assert_eq!(merged.prompts[0].system_prompt, "mine");

    let (again, changed) = merge_builtin_prompts(merged, &defaults);
    assert!(!changed);
    assert_eq!(again.prompts.len(), 3);
}

#[test]
fn prompt_validation() {
    let existing = vec![prompt("b1", "Polish", true)];
    let ok = vec![prompt("b1", "Polish", true), prompt("u1", "Mine", false)];
    assert!(validate_prompts(&ok, &existing).is_ok());
    let mut bad = prompt("u1", "Mine", false);
    bad.user_prompt_template = "no placeholder".to_string();
    assert_eq!(
        validate_prompts(&[prompt("b1", "Polish", true), bad], &existing),
        Err("提示词「Mine」的用户提示词模板必须包含 {{text}} 占位符".to_string())
    );
    assert_eq!(
        validate_prompts(&[prompt("b1", "Polish", true), prompt("b1", "Again", true)], &existing),
        Err("提示词 ID 重复: b1".to_string())
    );
    assert_eq!(
        validate_prompts(&[prompt("u1", " ", false)], &existing),
        Err("提示词名称不能为空".to_string())
    );
    assert_eq!(
        validate_prompts(&[prompt("u1", "Mine", false)], &existing),
        Err("不能删除内置提示词「Polish」".to_string())
    );
}

#[test]
fn endpoints_headers_and_secrets() {
    assert_eq!(openai_url("https://api.x.com/v1//"), "https://api.x.com/v1/chat/completions");
    assert_eq!(
        gemini_url("https://g.com/v1beta/", "models/models/gemini-pro", true),
        "https://g.com/v1beta/models/gemini-pro:streamGenerateContent?alt=sse"
    );
    assert_eq!(gemini_url("https://g.com", "gemini", false), "https://g.com/models/gemini:generateContent");
    assert!(is_reserved_key(&ApiProtocol::Openai, "messages"));
    assert!(!is_reserved_key(&ApiProtocol::Openai, "temperature"));
    assert!(is_reserved_key(&ApiProtocol::Gemini, "system_instruction"));
    assert_eq!(mask_secret(""), "*");
    assert_eq!(mask_secret("abcd"), "****");
    assert_eq!(mask_secret("sk-1234567890"), "sk-1***7890");
    let h = logged_request_headers("sk-1234567890", true);
    assert_eq!(
        format_header_lines(&h),
        "authorization: Bearer sk-1***7890\ncontent-type: application/json\naccept: text/event-stream"
    );
    assert_eq!(idle_timeout_secs(3), 5);
    assert_eq!(idle_timeout_secs(9), 9);
    assert_eq!(request_error_message("AI API", RequestFailure::Timeout, 5, 60, "x"), "AI API 请求超时（60秒）");
    assert_eq!(
        request_error_message("Gemini API", RequestFailure::Connect, 5, 60, "refused"),
        "Gemini API 连接超时（5秒）: refused"
    );
    assert_eq!(
        status_error_message("AI API", 401, Some("bad key".to_string()), "{}"),
        "AI API 错误 (401): bad key"
    );
    assert_eq!(status_error_message("AI API", 500, None, "oops"), "AI API 错误 (500): oops");
}

#[test]
fn sse_events_are_split_and_read() {
    let mut b = SseBuffer::new();
    b.push_text("data: {\"a\":1}\r\n\r\ndata: [DO");
    assert_eq!(b.next_event().as_deref(), Some("data: {\"a\":1}"));
    assert_eq!(b.next_event(), None);
    b.push_bytes(b"NE]\n\n");
    let ev = b.next_event().unwrap();
    assert!(matches!(sse_data(&ev, true), SseData::Done));
    assert!(matches!(sse_data(&ev, false), SseData::Data(ref d) if d == "[DONE]"));
    assert!(matches!(sse_data("event: x\ndata:  {\"b\": \ndata: 2}", true), SseData::Data(ref d) if d == "{\"b\":2}"));
    assert!(matches!(sse_data(": comment", true), SseData::Empty));
    b.push_text("  tail  ");
    assert_eq!(b.take_rest().as_deref(), Some("tail"));
}

#[test]
fn stream_chunks_accumulate() {
    let mut s = CompletionStream::new();
    let e = s.apply_openai(&OpenAiChunk { error: None, content: Some("你".to_string()) });
    assert_eq!(e, ChunkEffect::Content("你".to_string()));
    assert_eq!(s.apply_openai(&OpenAiChunk { error: None, content: Some(String::new()) }), ChunkEffect::Ignored);
    s.apply_openai(&OpenAiChunk { error: None, content: Some("好".to_string()) });
    assert_eq!(s.accumulated, "你好");
    assert_eq!(
        s.apply_openai(&OpenAiChunk { error: Some(None), content: Some("x".to_string()) }),
        ChunkEffect::Error("AI API 流式错误: 流式响应中收到错误".to_string())
    );
    let parts = vec![
        GeminiPart { text: Some("思考".to_string()), thought: true },
        GeminiPart { text: Some("答".to_string()), thought: false },
        GeminiPart { text: None, thought: false },
        GeminiPart { text: Some("案".to_string()), thought: false },
    ];
    assert_eq!(gemini_text(&parts), "答案");
    assert_eq!(s.apply_gemini(&parts).as_deref(), Some("答案"));
    assert_eq!(s.accumulated, "你好答案");
    assert_eq!(gemini_non_streaming_content(&parts[..1]), Err("Gemini 响应格式异常：未找到文本内容".to_string()));
    assert_eq!(non_streaming_content(None), Err("AI 响应格式异常：缺少 content 字段".to_string()));
    assert_eq!(stream_timeout_message(false, 5), "AI API 流式响应超时（5秒无数据）");
}

#[test]
fn provider_list_edits() {
    let mut list = vec![provider("a"), provider("b")];
    let mut upd = provider("b");
    upd.name = "  New  ".to_string();
    let upd = prepare_updated_provider(upd).unwrap();
    assert_eq!(upd.name, "New");
    assert!(replace_provider(&mut list, upd).is_ok());
    assert_eq!(list[1].name, "New");
    assert_eq!(replace_provider(&mut list, provider("z")), Err("供应商 ID 不存在: z".to_string()));
    assert!(remove_provider(&mut list, "a").is_ok());
    assert_eq!(list.len(), 1);
    assert_eq!(remove_provider(&mut list, "a"), Err("供应商 ID 不存在: a".to_string()));
    let mut bad = provider("c");
    bad.api_endpoint = "ftp://x".to_string();
    assert_eq!(
        prepare_updated_provider(bad).unwrap_err(),
        "API 端点必须以 http:// 或 https:// 开头"
    );

    let settings = AiOptimizeSettings {
        enabled: true,
        active_provider_id: "a".to_string(),
        active_prompt_id: "p".to_string(),
        connect_timeout_secs: 5,
        max_request_secs: 60,
    };
    let (s, changed) = ai_settings_after_delete(&settings, "a");
    assert!(changed);
    assert!(!s.enabled);
    assert_eq!(s.active_provider_id, "");
    assert_eq!(s.active_prompt_id, "p");
    let (_, changed) = ai_settings_after_delete(&settings, "b");
    assert!(!changed);
}

#[test]
fn optimization_plan() {
    let mut settings = AiOptimizeSettings::default();
    let providers = vec![provider("a")];
    let prompts = vec![prompt("p1", "One", true), prompt("p2", "Two", false)];
    match plan_ai_optimize_with_key(&settings, &providers, &prompts, "原文".to_string(), None) {
        Ok(AiOptimizePlan::Unchanged(t)) => assert_eq!(t, "原文"),
        _ => panic!("unchanged expected"),
    }
    settings.enabled = true;
    assert_eq!(
        plan_ai_optimize_with_key(&settings, &providers, &prompts, "x".to_string(), None).err(),
        Some("未选择 AI 供应商".to_string())
    );
    settings.active_provider_id = "zz".to_string();
    assert_eq!(
        plan_ai_optimize_with_key(&settings, &providers, &prompts, "x".to_string(), None).err(),
        Some("所选 AI 供应商不存在，请在设置中重新选择".to_string())
    );
    settings.active_provider_id = "a".to_string();
    assert_eq!(
        plan_ai_optimize_with_key(&settings, &providers, &prompts, "x".to_string(), None).err(),
        Some("AI 供应商「name-a」的 API Key 未配置".to_string())
    );
    assert_eq!(
        plan_ai_optimize_with_key(&settings, &providers, &[], "x".to_string(), Some("k".into())).err(),
        Some("未找到可用的提示词模板".to_string())
    );
    settings.active_prompt_id = "p2".to_string();
    match plan_ai_optimize_with_key(&settings, &providers, &prompts, "你好".to_string(), Some("k".into())) {
        Ok(AiOptimizePlan::Request { provider, api_key, system_prompt, user_message }) => {
            assert_eq!(provider.id, "a");
            assert_eq!(api_key, "k");
            assert_eq!(system_prompt, "sys-p2");
            assert_eq!(user_message, "请优化：你好");
        }
        _ => panic!("request expected"),
    }
    settings.active_prompt_id = "gone".to_string();
    match plan_ai_optimize_with_key(&settings, &providers, &prompts, "你好".to_string(), Some("k".into())) {
        Ok(AiOptimizePlan::Request { system_prompt, .. }) => assert_eq!(system_prompt, "sys-p1"),
        _ => panic!("request expected"),
    }
}

#[test]
fn test_requests() {
    let p = provider("a");
    assert_eq!(prepare_test_request(&p, "  ").err(), Some("API Key 不能为空".to_string()));
    let t = prepare_test_request(&p, "k").unwrap();
    assert_eq!(t.url, "https://api.example.com/v1/chat/completions");
    assert_eq!(t.auth_header_value, "Bearer k");
    let mut g = provider("g");
    g.protocol = ApiProtocol::Gemini;
    g.api_endpoint = "https://generativelanguage.googleapis.com/v1beta".to_string();
    g.model = "models/gemini-2.0".to_string();
    let t = prepare_test_request(&g, "k").unwrap();
    assert_eq!(
        t.url,
        "https://generativelanguage.googleapis.com/v1beta/models/gemini-2.0:generateContent"
    );
    assert_eq!(t.auth_header_name, "x-goog-api-key");
}

#[test]
fn uuid_forms() {
    let n: u128 = 0x0123456789abcdef0011223344556677;
    assert_eq!(uuid_simple(n), "0123456789abcdef0011223344556677");
    assert_eq!(uuid_hyphenated(n), "01234567-89ab-cdef-0011-223344556677");
    let id = new_uuid_string();
    assert_eq!(id.len(), 36);
    assert_eq!(&id[14..15], "4");
    let e = evt_id();
    assert!(e.starts_with("evt_"));
    assert_eq!(e.len(), 36);
    // Version nibble 4, variant bits 10 (the digit after it is 8, 9, a or b).
    assert_eq!(&e[16..17], "4");
    assert!(["8", "9", "a", "b"].contains(&&e[20..21]));
    assert!(["8", "9", "a", "b"].contains(&&id[19..20]));
}

#[test]
fn keyring_answers_for_provider_keys() {
    assert_eq!(key_presence_of(Ok("sk".to_string())), Ok(true));
    assert_eq!(key_presence_of(Err(CredentialError::NoEntry)), Ok(false));
    assert_eq!(
        key_presence_of(Err(CredentialError::Other("locked".to_string()))),
        Err("无法访问系统密钥链: locked".to_string())
    );
    assert_eq!(
        key_presence_of(Err(CredentialError::Store("bad".to_string()))),
        Err("无法访问系统密钥链: bad".to_string())
    );
    assert_eq!(provider_key_of(Ok("sk".to_string())), Some("sk".to_string()));
    assert_eq!(provider_key_of(Err(CredentialError::NoEntry)), None);
    assert_eq!(provider_key_of(Err(CredentialError::Other("x".to_string()))), None);
}

#[test]
fn test_report_fills_missing_fields() {
    let r = test_report(
        TestAnswerFields {
            content: None,
            model: None,
            prompt_tokens: Some(3),
            completion_tokens: None,
            total_tokens: Some(9),
        },
        "gpt-4o-mini",
    );
    assert_eq!(r.content, "");
    assert_eq!(r.model, "gpt-4o-mini");
    assert_eq!((r.prompt_tokens, r.completion_tokens, r.total_tokens), (3, 0, 9));
    let r = test_report(
        TestAnswerFields {
            content: Some("你好".to_string()),
            model: Some("gemini-2.0".to_string()),
            prompt_tokens: None,
            completion_tokens: None,
            total_tokens: None,
        },
        "x",
    );
    assert_eq!(r.content, "你好");
    assert_eq!(r.model, "gemini-2.0");
}

#[test]
fn extra_body_keeps_unreserved_keys_in_order() {
    let keys: Vec<String> = ["temperature", "model", "top_p", "stream"].iter().map(|k| k.to_string()).collect();
    assert_eq!(merged_extra_keys(&ApiProtocol::Openai, &keys), vec![0, 2]);
    assert_eq!(merged_extra_keys(&ApiProtocol::Gemini, &keys), vec![0, 1, 2, 3]);
}
