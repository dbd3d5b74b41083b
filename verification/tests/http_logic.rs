use veronex::domain::entities::ApiKey;
use veronex::domain::enums::{AccountRole, JobSource, KeyTier, KeyType, LlmProviderStatus, ProviderType};
use veronex::domain::errors::DomainError;
use veronex::domain::ids::ConvId;
use veronex::domain::services::hash_api_key;
use veronex::domain::value_objects::StreamToken;
use veronex::http::admin::{
    account_insert_error, check_initial_status, choose_roles, mcp_session_action, mcp_timeout, plan_mcp_update,
    register_mcp_start, register_provider_checked, register_provider_start, McpServerPatch, McpServerState, McpSessionAction,
    ProviderRegistration, RoleChoice,
};
use veronex::http::auth::{
    admit_api_key, api_key_auth_start, extract_access_cookie, extract_refresh_cookie, infer_auth_start,
    infer_session_finish, jwt_auth_finish, require_permission, require_super, Claims, CredentialHeaders,
    InferAuthStart, InferCaller, KeyAuthStart, Revocation,
};
use veronex::http::datetime::{build_current_datetime_system_text, datetime_directive_text};
use veronex::http::error::AppError;
use veronex::http::gates::{
    chat_route, check_chat_completion, check_generate, check_ollama_chat, check_text_completion,
    extract_conversation_id, effective_max_tokens, legacy_chat_prompt, prompt_str, request_conversation_id,
    ChatRoute, GateError,
};
use veronex::http::gemini::{
    contents_to_ollama, extract_text_parts, gemini_dispatch, gemini_tools_to_ollama, mask_api_key,
    split_model_action, GeminiContent, GeminiDispatch, GeminiFunctionCall, GeminiFunctionDeclaration,
    GeminiFunctionResponse, GeminiPart, GeminiTool,
};
use veronex::http::health::{
    percent_encode, pod_status, secs_since_poll, service_status, topic_stats, watermark_line, SvcProbe,
};
use veronex::http::inference::{
    compute_message_hashes, convert_tool_call, extract_last_user_prompt, validate_tool_call,
};
use veronex::http::ollama::{build_chat_response, build_generate_response, chat_stream_line};
use veronex::http::openai::{inject_current_datetime, ChatMessage, MessageContent};
use veronex::http::provider::{check_provider_address, provider_url_host, url_host_cut_ok, IpAddress};
use veronex::http::validation::estimate_tokens;
use veronex::domain::services::encrypt;
use veronex::http::rate_limit::{after_rpm_check, after_tpm_check, rate_limit_start, seconds_until_next_minute, RateStep};
use veronex::http::session::{auth_cookie_headers, check_login_rate, check_refresh, clear_cookie_headers, RefreshRefusal};
use veronex::http::sse::{usage_info, CompletionChunk, CompletionCollector};
use veronex::json::{as_str, get_field, Json};

fn s(x: &str) -> Json {
    Json::String(x.to_string())
}

fn obj(entries: Vec<(&str, Json)>) -> Json {
    Json::Object(entries.into_iter().map(|(k, v)| (k.to_string(), v)).collect())
}

fn text_at<'a>(j: &'a Json, key: &str) -> Option<&'a str> {
    get_field(j, key).and_then(as_str)
}

fn num_at(j: &Json, key: &str) -> Option<String> {
    match get_field(j, key) {
        Some(Json::Number(t)) => Some(t.clone()),
        _ => None,
    }
}

fn bool_at(j: &Json, key: &str) -> Option<bool> {
    match get_field(j, key) {
        Some(Json::Bool(b)) => Some(*b),
        _ => None,
    }
}

fn msg(role: &str, content: &str) -> Json {
    obj(vec![("role", s(role)), ("content", s(content))])
}

// ── Inference helpers ────────────────────────────────────────────────────────

#[test]
fn validate_model_name_examples() {
    assert!(veronex::http::validation::validate_model_name("").is_err());
    assert!(veronex::http::validation::validate_model_name("llama3.2:latest").is_ok());
}

#[test]
fn validate_tool_call_examples() {
    let valid = obj(vec![("function", obj(vec![("name", s("get_weather")), ("arguments", obj(vec![]))]))]);
    assert!(validate_tool_call(&valid));
    let dotted =
        obj(vec![("function", obj(vec![("name", s("tools.weather:get-forecast")), ("arguments", obj(vec![]))]))]);
    assert!(validate_tool_call(&dotted));
    let missing = obj(vec![("name", s("get_weather"))]);
    assert!(!validate_tool_call(&missing));
    let control = obj(vec![("function", obj(vec![("name", s("ab\u{1}c"))]))]);
    assert!(!validate_tool_call(&control));
    let huge = obj(vec![("function", obj(vec![("name", s("f")), ("arguments", s(&"x".repeat(70_000)))]))]);
    assert!(!validate_tool_call(&huge));
}

#[test]
fn extract_last_user_prompt_finds_last() {
    let msgs = vec![msg("user", "first"), msg("assistant", "reply"), msg("user", "second")];
    assert_eq!(extract_last_user_prompt(&msgs), "second");
}

#[test]
fn extract_last_user_prompt_fallback() {
    let msgs = vec![msg("system", "sys")];
    assert_eq!(extract_last_user_prompt(&msgs), "chat");
}

#[test]
fn convert_tool_call_format() {
    let ollama = obj(vec![("function", obj(vec![("name", s("get_weather")), ("arguments", obj(vec![("city", s("Seoul"))]))]))]);
    let openai = convert_tool_call(0, &ollama);
    assert_eq!(num_at(&openai, "index").as_deref(), Some("0"));
    assert_eq!(text_at(&openai, "id"), Some("call_0"));
    assert_eq!(text_at(&openai, "type"), Some("function"));
    let f = get_field(&openai, "function").unwrap();
    assert_eq!(text_at(f, "name"), Some("get_weather"));
    let args: serde_json::Value = serde_json::from_str(text_at(f, "arguments").unwrap()).unwrap();
    assert_eq!(args["city"], "Seoul");
}

#[test]
fn convert_tool_call_missing_fields() {
    let empty = obj(vec![]);
    let result = convert_tool_call(0, &empty);
    let f = get_field(&result, "function").unwrap();
    assert_eq!(text_at(f, "name"), Some(""));
    assert_eq!(text_at(f, "arguments"), Some(""));
}

#[test]
fn returns_none_for_invalid_inputs() {
    assert!(compute_message_hashes(&Json::Array(vec![])).is_none());
    assert!(compute_message_hashes(&obj(vec![("role", s("user"))])).is_none());
    assert!(compute_message_hashes(&Json::Null).is_none());
}

#[test]
fn prefix_hash_matches_subset_full_hash() {
    let msgs = Json::Array(vec![msg("user", "hello"), msg("assistant", "hi"), msg("user", "bye")]);
    let (full, prefix) = compute_message_hashes(&msgs).unwrap();
    let first_two = Json::Array(vec![msg("user", "hello"), msg("assistant", "hi")]);
    let (full_of_two, _) = compute_message_hashes(&first_two).unwrap();
    assert_eq!(prefix, full_of_two);
    assert_ne!(full, prefix);
    let single = Json::Array(vec![msg("user", "x")]);
    let (h, p) = compute_message_hashes(&single).unwrap();
    assert_eq!(h.len(), 64);
    assert!(p.is_empty());
    assert_eq!(h, hash_api_key(r#"[{"content":"x","role":"user"}]"#));
}

// ── Date directive ───────────────────────────────────────────────────────────

#[test]
fn build_text_includes_iso_datetime_and_weekday() {
    let text = build_current_datetime_system_text();
    assert!(text.contains('T') && text.contains('Z'), "iso datetime present: {text}");
    let has_weekday = ["Monday", "Tuesday", "Wednesday", "Thursday", "Friday", "Saturday", "Sunday"]
        .iter()
        .any(|d| text.contains(d));
    assert!(has_weekday, "weekday present: {text}");
    assert!(text.contains("today") || text.contains("오늘"), "relative-time hint: {text}");
}

#[test]
fn build_text_uses_imperative_anti_anchor_phrasing() {
    let text = build_current_datetime_system_text();
    assert!(text.contains("Today is"), "absolute statement: {text}");
    assert!(text.to_lowercase().contains("historical"), "earlier years marked historical: {text}");
    assert!(text.contains("HISTORICAL"), "uppercase emphasis on HISTORICAL: {text}");
}

#[test]
fn directive_text_places_parts() {
    let t = datetime_directive_text("2026-03-15", "Sunday", "2026-03-15T00:00:00Z", "2026");
    assert!(t.starts_with("**Today is 2026-03-15 (Sunday, UTC).** Current ISO timestamp: 2026-03-15T00:00:00Z. "));
    assert!(t.ends_with("as if it were now."));
    assert!(t.contains("resolve to 2026-03-15.\n"));
}

fn user_msg(text: &str) -> ChatMessage {
    ChatMessage {
        role: "user".to_string(),
        content: Some(MessageContent::Text(text.to_string())),
        tool_calls: None,
        tool_call_id: None,
        name: None,
    }
}

fn user_system(text: &str) -> ChatMessage {
    ChatMessage {
        role: "system".to_string(),
        content: Some(MessageContent::Text(text.to_string())),
        tool_calls: None,
        tool_call_id: None,
        name: None,
    }
}

#[test]
fn inject_into_user_only_messages_prepends_system() {
    let mut messages = vec![user_msg("hi")];
    inject_current_datetime(&mut messages);
    assert_eq!(messages.len(), 2);
    assert_eq!(messages[0].role(), "system");
    assert_eq!(messages[1].role(), "user");
}

#[test]
fn inject_with_existing_system_keeps_user_system_intact() {
    let mut messages = vec![user_system("You are a helpful assistant."), user_msg("hi")];
    inject_current_datetime(&mut messages);
    assert_eq!(messages.len(), 3);
    assert_eq!(messages[0].role(), "system");
    assert_eq!(messages[1].role(), "system");
    assert_eq!(messages[2].role(), "user");
}

#[test]
fn inject_into_empty_still_creates_system() {
    let mut messages: Vec<ChatMessage> = Vec::new();
    inject_current_datetime(&mut messages);
    assert_eq!(messages.len(), 1);
    assert_eq!(messages[0].role(), "system");
}

#[test]
fn into_ollama_value_parses_tool_arguments() {
    let call = obj(vec![("function", obj(vec![("name", s("f")), ("arguments", s(r#"{"a":1}"#))]))]);
    let m = ChatMessage {
        role: "assistant".to_string(),
        content: None,
        tool_calls: Some(Json::Array(vec![call])),
        tool_call_id: Some("c1".to_string()),
        name: None,
    };
    let v = m.into_ollama_value();
    assert_eq!(text_at(&v, "role"), Some("assistant"));
    assert_eq!(text_at(&v, "content"), Some(""));
    assert_eq!(text_at(&v, "tool_call_id"), Some("c1"));
    match get_field(&v, "tool_calls") {
        Some(Json::Array(xs)) => {
            let f = get_field(&xs[0], "function").unwrap();
            assert_eq!(text_at(f, "name"), Some("f"));
            assert_eq!(num_at(get_field(f, "arguments").unwrap(), "a").as_deref(), Some("1"));
        },
        _ => panic!("tool_calls missing"),
    }
}

// ── Gates ────────────────────────────────────────────────────────────────────

#[test]
fn chat_completion_gates() {
    assert_eq!(check_chat_completion("", &vec![]), Err(GateError::InvalidModel));
    let many: Vec<ChatMessage> = (0..257).map(|_| user_msg("x")).collect();
    assert_eq!(check_chat_completion("m", &many), Err(GateError::TooManyMessages));
    let big = vec![user_msg(&"x".repeat(1_000_001))];
    assert_eq!(check_chat_completion("m", &big), Err(GateError::PromptTooLarge));
    assert_eq!(check_chat_completion("m", &vec![user_msg("hi")]), Ok(()));
    assert_eq!(GateError::TooManyMessages.message(), "messages array exceeds maximum length of 256");
}

#[test]
fn token_budget_prefers_new_name_and_caps() {
    assert_eq!(effective_max_tokens(Some(10), Some(20)), Some(10));
    assert_eq!(effective_max_tokens(None, Some(20)), Some(20));
    assert_eq!(effective_max_tokens(None, Some(100_000)), Some(32_768));
    assert_eq!(effective_max_tokens(None, None), None);
}

#[test]
fn chat_routes() {
    assert_eq!(chat_route(None, false, true), ChatRoute::OllamaProxy);
    assert_eq!(chat_route(Some("ollama"), true, true), ChatRoute::McpLoop);
    assert_eq!(chat_route(Some("ollama"), true, false), ChatRoute::OllamaProxy);
    assert_eq!(
        chat_route(Some("gemini-free"), true, true),
        ChatRoute::Queue { provider_type: ProviderType::Gemini, gemini_tier: Some("free".to_string()) }
    );
}

#[test]
fn legacy_prompt_takes_last_user_message() {
    let msgs = vec![user_msg("a"), user_system("s"), user_msg("b")];
    assert_eq!(legacy_chat_prompt(msgs), Ok("b".to_string()));
    assert_eq!(legacy_chat_prompt(vec![user_system("s")]), Err(GateError::NoUserMessage));
}

#[test]
fn generate_and_completion_gates() {
    assert_eq!(check_generate("m", ""), Err(GateError::PromptRequired));
    assert_eq!(check_generate("", "p"), Err(GateError::InvalidModel));
    assert_eq!(check_generate("m", "p"), Ok(()));
    assert_eq!(check_text_completion("m", ""), Err(GateError::EmptyPrompt));
    assert_eq!(prompt_str(&Json::Array(vec![s("a"), Json::Null, s("b")])), "a\nb");
    assert_eq!(prompt_str(&s("one")), "one");
    assert_eq!(prompt_str(&Json::Bool(true)), "");
}

#[test]
fn ollama_chat_gate() {
    assert_eq!(check_ollama_chat("m", &vec![msg("system", "x")]), Err(GateError::NoUserMessage));
    assert_eq!(check_ollama_chat("m", &vec![msg("user", "q")]), Ok("q".to_string()));
}

#[test]
fn conversation_ids_prefer_body() {
    let a = ConvId(7).to_string();
    let b = ConvId(9).to_string();
    assert_eq!(request_conversation_id(Some(&a), Some(&b)), Some(7));
    assert_eq!(request_conversation_id(Some("junk"), Some(&b)), Some(9));
    assert_eq!(extract_conversation_id(Some(&"x".repeat(300))), None);
}

// ── Auth ─────────────────────────────────────────────────────────────────────

fn headers(x: Option<&str>, auth: Option<&str>, goog: Option<&str>, cookies: Vec<&str>) -> CredentialHeaders {
    CredentialHeaders {
        x_api_key: x.map(|v| v.to_string()),
        authorization: auth.map(|v| v.to_string()),
        goog_api_key: goog.map(|v| v.to_string()),
        cookies: cookies.into_iter().map(|v| v.to_string()).collect(),
    }
}

fn key(active: bool, expires_at: Option<i64>, key_type: KeyType) -> ApiKey {
    ApiKey {
        id: 5,
        key_hash: "h".to_string(),
        key_prefix: "iq_".to_string(),
        tenant_id: "t".to_string(),
        name: "n".to_string(),
        is_active: active,
        rate_limit_rpm: 0,
        rate_limit_tpm: 0,
        expires_at,
        created_at: 0,
        deleted_at: None,
        key_type,
        tier: KeyTier::Paid,
        account_id: None,
    }
}

#[test]
fn api_key_auth_reads_headers_in_order() {
    assert_eq!(api_key_auth_start("/health", &headers(None, None, None, vec![])), KeyAuthStart::Skip);
    assert_eq!(
        api_key_auth_start("/v1/x", &headers(None, Some("Bearer abc"), Some("zzz"), vec![])),
        KeyAuthStart::Lookup(hash_api_key("abc"))
    );
    assert_eq!(
        api_key_auth_start("/v1/x", &headers(Some("k1"), Some("Bearer abc"), None, vec![])),
        KeyAuthStart::Lookup(hash_api_key("k1"))
    );
    assert_eq!(
        api_key_auth_start("/v1/x", &headers(Some(""), None, None, vec![])),
        KeyAuthStart::Reject(AppError::Unauthorized("missing API key".to_string()))
    );
}

#[test]
fn admit_api_key_refusals() {
    assert_eq!(admit_api_key(None, 0), Err(AppError::Unauthorized("invalid API key".to_string())));
    assert_eq!(
        admit_api_key(Some(key(false, None, KeyType::Standard)), 0),
        Err(AppError::Unauthorized("API key is disabled".to_string()))
    );
    assert_eq!(
        admit_api_key(Some(key(true, Some(10), KeyType::Standard)), 11),
        Err(AppError::Unauthorized("API key has expired".to_string()))
    );
    assert!(admit_api_key(Some(key(true, Some(10), KeyType::Standard)), 10).is_ok());
    assert_eq!(
        admit_api_key(Some(key(true, None, KeyType::Test)), 0),
        Err(AppError::Forbidden("test API keys are not permitted for API access".to_string()))
    );
}

#[test]
fn infer_auth_prefers_keys_then_session() {
    assert_eq!(
        infer_auth_start("/v1/x", &headers(None, Some("Bearer iq_k"), None, vec![])),
        InferAuthStart::LookupKey(hash_api_key("iq_k"))
    );
    assert_eq!(
        infer_auth_start("/v1/x", &headers(None, Some("Bearer vnx_k"), None, vec![])),
        InferAuthStart::VerifyToken("vnx_k".to_string())
    );
    assert_eq!(
        infer_auth_start("/v1/x", &headers(None, Some("Bearer jwt.token"), None, vec![])),
        InferAuthStart::VerifyToken("jwt.token".to_string())
    );
    assert_eq!(
        infer_auth_start("/v1/x", &headers(None, None, None, vec!["a=b; veronex_access_token=tok"])),
        InferAuthStart::VerifyToken("tok".to_string())
    );
    assert_eq!(
        infer_auth_start("/v1/x", &headers(None, None, None, vec![])),
        InferAuthStart::Reject(AppError::Unauthorized("missing API key or session token".to_string()))
    );
}

fn claims(role: AccountRole, perms: Vec<&str>) -> Claims {
    Claims {
        sub: 11,
        role,
        jti: 12,
        exp: 0,
        permissions: perms.into_iter().map(|p| p.to_string()).collect(),
        menus: vec![],
        role_name: "r".to_string(),
    }
}

#[test]
fn session_checks() {
    assert_eq!(
        infer_session_finish(Some(claims(AccountRole::Admin, vec!["dashboard_view"])), false),
        Err(AppError::Forbidden("api_test permission required to call inference endpoints".to_string()))
    );
    let ok = infer_session_finish(Some(claims(AccountRole::Admin, vec!["api_test"])), false).unwrap();
    assert_eq!(ok.source(), JobSource::Test);
    assert_eq!(ok.account_id(), Some(11));
    assert_eq!(ok.api_key_id(), None);
    assert_eq!(
        infer_session_finish(Some(claims(AccountRole::Admin, vec!["api_test"])), true),
        Err(AppError::Unauthorized("session has been revoked".to_string()))
    );
    assert_eq!(
        jwt_auth_finish(Some(claims(AccountRole::Admin, vec![])), Revocation::Unavailable),
        Err(AppError::ServiceUnavailable("token revocation check unavailable".to_string()))
    );
    let k = InferCaller::ApiKey(key(true, None, KeyType::Standard));
    assert_eq!(k.source(), JobSource::Api);
    assert_eq!(k.api_key_id(), Some(5));
    assert_eq!(k.key_tier(), Some(KeyTier::Paid));
}

#[test]
fn permission_guards() {
    let viewer = claims(AccountRole::Admin, vec!["dashboard_view"]);
    assert_eq!(require_permission(Some(&viewer), "dashboard_view"), Ok(()));
    assert_eq!(
        require_permission(Some(&viewer), "key_manage"),
        Err(AppError::Forbidden("permission 'key_manage' required".to_string()))
    );
    let sup = claims(AccountRole::Super, vec![]);
    assert_eq!(require_permission(Some(&sup), "key_manage"), Ok(()));
    assert_eq!(require_super(Some(&viewer)), Err(AppError::Forbidden("super admin access required".to_string())));
    assert_eq!(require_super(None), Err(AppError::Unauthorized("authentication required".to_string())));
}

#[test]
fn cookie_extraction() {
    let cookies = vec!["x=1; veronex_refresh_token= r1 ".to_string(), "veronex_access_token=a1".to_string()];
    assert_eq!(extract_refresh_cookie(&cookies).as_deref(), Some("r1"));
    assert_eq!(extract_access_cookie(&cookies).as_deref(), Some("a1"));
    assert_eq!(extract_access_cookie(&vec!["veronex_access_token= ; other=2".to_string()]), None);
}

// ── Rate limiting ────────────────────────────────────────────────────────────

#[test]
fn unlimited_rpm_zero() {
    let k = key(true, None, KeyType::Standard);
    assert_eq!(k.rate_limit_rpm, 0);
    assert_eq!(k.rate_limit_tpm, 0);
    assert_eq!(rate_limit_start(Some(&k), true, 1_000_000, 1_000), RateStep::Admit);
}

#[test]
fn rate_limit_key_format() {
    let mut k = key(true, None, KeyType::Standard);
    k.id = 0x0123_4567_89ab_cdef_0123_4567_89ab_cdef;
    k.rate_limit_rpm = 10;
    k.rate_limit_tpm = 100;
    match rate_limit_start(Some(&k), true, 120_000, 120) {
        RateStep::CheckRpm { key, window_start_ms, now_ms, limit } => {
            assert_eq!(key, "veronex:ratelimit:rpm:01234567-89ab-cdef-0123-456789abcdef");
            assert_eq!(window_start_ms, 60_000);
            assert_eq!(now_ms, 120_000);
            assert_eq!(limit, 10);
        },
        other => panic!("unexpected {other:?}"),
    }
    match after_rpm_check(&k, Some(10), 125) {
        RateStep::CheckTpm { key, limit, estimated_tokens } => {
            assert!(key.starts_with("veronex:ratelimit:tpm:"));
            assert!(key.contains("01234567-89ab-cdef-0123-456789abcdef"));
            assert!(key.ends_with(":2"));
            assert_eq!(limit, 100);
            assert_eq!(estimated_tokens, 500);
        },
        other => panic!("unexpected {other:?}"),
    }
    match after_rpm_check(&k, Some(11), 125) {
        RateStep::Limited(r) => {
            assert_eq!(r.limit_type, "rpm");
            assert_eq!(r.retry_after_secs, 60);
        },
        other => panic!("unexpected {other:?}"),
    }
    match after_tpm_check(&k, Some(-1), 125) {
        RateStep::Limited(r) => assert_eq!(r.retry_after_secs, 55),
        other => panic!("unexpected {other:?}"),
    }
    assert_eq!(after_tpm_check(&k, None, 125), RateStep::Unavailable);
    assert_eq!(rate_limit_start(Some(&k), false, 0, 0), RateStep::Unavailable);
}

#[test]
fn seconds_until_next_minute_range() {
    for t in [0u64, 1, 59, 60, 61, 3599, 1_700_000_000] {
        let secs = seconds_until_next_minute(t);
        assert!((1..=60).contains(&secs));
    }
    assert_eq!(seconds_until_next_minute(120), 60);
    assert_eq!(seconds_until_next_minute(179), 1);
}

// ── Gemini ───────────────────────────────────────────────────────────────────

#[test]
fn extract_text_parts_joins_text_only() {
    let parts = vec![
        GeminiPart::Text { text: "hello ".to_string() },
        GeminiPart::Other(Json::Null),
        GeminiPart::Text { text: "world".to_string() },
    ];
    assert_eq!(extract_text_parts(&parts), "hello world");
}

#[test]
fn gemini_contents_convert_roles_calls_and_results() {
    let system = Some(GeminiContent { role: None, parts: vec![GeminiPart::Text { text: "be brief".to_string() }] });
    let contents = vec![
        GeminiContent { role: Some("user".to_string()), parts: vec![GeminiPart::Text { text: "hi".to_string() }] },
        GeminiContent {
            role: Some("model".to_string()),
            parts: vec![GeminiPart::FunctionCall {
                function_call: GeminiFunctionCall { name: "f".to_string(), args: obj(vec![("x", s("1"))]) },
            }],
        },
        GeminiContent {
            role: Some("user".to_string()),
            parts: vec![GeminiPart::FunctionResponse {
                function_response: GeminiFunctionResponse { name: "f".to_string(), response: obj(vec![("ok", Json::Bool(true))]) },
            }],
        },
    ];
    let out = contents_to_ollama(system, contents);
    assert_eq!(out.len(), 4);
    assert_eq!(text_at(&out[0], "role"), Some("system"));
    assert_eq!(text_at(&out[0], "content"), Some("be brief"));
    assert_eq!(text_at(&out[1], "role"), Some("user"));
    assert_eq!(text_at(&out[2], "role"), Some("assistant"));
    assert_eq!(text_at(&out[2], "content"), Some(""));
    assert!(matches!(get_field(&out[2], "tool_calls"), Some(Json::Array(v)) if v.len() == 1));
    assert_eq!(text_at(&out[3], "role"), Some("tool"));
    assert_eq!(text_at(&out[3], "name"), Some("f"));
    assert_eq!(text_at(&out[3], "content"), Some(r#"{"ok":true}"#));
}

#[test]
fn gemini_tools_flatten_declarations() {
    assert!(gemini_tools_to_ollama(vec![]).is_none());
    let tools = vec![GeminiTool {
        function_declarations: vec![GeminiFunctionDeclaration { name: "f".to_string(), description: None, parameters: None }],
    }];
    match gemini_tools_to_ollama(tools) {
        Some(Json::Array(xs)) => {
            assert_eq!(xs.len(), 1);
            assert_eq!(text_at(&xs[0], "type"), Some("function"));
            let f = get_field(&xs[0], "function").unwrap();
            assert_eq!(text_at(f, "description"), Some(""));
        },
        _ => panic!("tools expected"),
    }
}

#[test]
fn gemini_dispatch_paths() {
    assert_eq!(split_model_action("qwen3:latest:generateContent"), ("qwen3:latest".to_string(), "generateContent".to_string()));
    assert_eq!(split_model_action("nocolon"), (String::new(), "nocolon".to_string()));
    assert_eq!(gemini_dispatch("m:streamGenerateContent", false, false, 0), GeminiDispatch::Stream("m".to_string()));
    match gemini_dispatch("m:other", false, false, 0) {
        GeminiDispatch::Reject(e) => {
            assert_eq!(e.http_status, 404);
            assert_eq!(e.message, "unknown action: other");
        },
        other => panic!("unexpected {other:?}"),
    }
    match gemini_dispatch("m:generateContent", true, false, 0) {
        GeminiDispatch::Reject(e) => assert_eq!(e.status, "UNIMPLEMENTED"),
        other => panic!("unexpected {other:?}"),
    }
    match gemini_dispatch(":generateContent", false, false, 0) {
        GeminiDispatch::Reject(e) => assert_eq!(e.status, "INVALID_ARGUMENT"),
        other => panic!("unexpected {other:?}"),
    }
}

#[test]
fn mask_api_key_examples() {
    assert_eq!(mask_api_key("short"), "****");
    assert_eq!(mask_api_key("12345678"), "****");
    assert_eq!(mask_api_key("AIzaSyD-test-key"), "AIza...-key");
}

// ── SSE chunks and collection ────────────────────────────────────────────────

#[test]
fn content_chunk_sets_object_and_text() {
    let chunk = CompletionChunk::content("id1".into(), 42, Some("model1".into()), "hello".into());
    assert_eq!(chunk.id, "id1");
    assert_eq!(chunk.object, "chat.completion.chunk");
    assert_eq!(chunk.created, 42);
    assert_eq!(chunk.model.as_deref(), Some("model1"));
    assert_eq!(chunk.choices.len(), 1);
    assert_eq!(chunk.choices[0].delta.content.as_deref(), Some("hello"));
    assert!(chunk.choices[0].finish_reason.is_none());
    assert!(chunk.usage.is_none());
}

#[test]
fn finish_chunk_sets_reason_and_empty_delta() {
    let chunk = CompletionChunk::finish("id2".into(), 0, None, "stop");
    assert_eq!(chunk.choices.len(), 1);
    assert_eq!(chunk.choices[0].finish_reason.as_deref(), Some("stop"));
    assert!(chunk.choices[0].delta.content.is_none());
    assert!(chunk.choices[0].delta.tool_calls.is_none());
}

#[test]
fn stop_chunk_uses_stop_reason() {
    let chunk = CompletionChunk::stop("id3".into(), 0, None);
    assert_eq!(chunk.choices[0].finish_reason.as_deref(), Some("stop"));
}

#[test]
fn usage_only_chunk_has_empty_choices() {
    let chunk = CompletionChunk::usage_only("id4".into(), 0, None, usage_info(10, 20));
    assert!(chunk.choices.is_empty());
    assert!(chunk.usage.is_some());
    assert_eq!(chunk.usage.unwrap().total_tokens, 30);
}

#[test]
fn tool_calls_chunk_carries_calls_in_delta() {
    let calls = vec![obj(vec![("index", Json::Number("0".into())), ("id", s("call_0")), ("type", s("function"))])];
    let chunk = CompletionChunk::tool_calls("id5".into(), 0, None, calls);
    assert_eq!(chunk.choices.len(), 1);
    let tc = chunk.choices[0].delta.tool_calls.as_ref().unwrap();
    assert_eq!(tc.len(), 1);
}

#[test]
fn finish_with_usage_embeds_both() {
    let chunk = CompletionChunk::finish_with_usage("id6".into(), 0, None, "length", usage_info(5, 7));
    assert_eq!(chunk.choices[0].finish_reason.as_deref(), Some("length"));
    assert_eq!(chunk.usage.unwrap().total_tokens, 12);
}

#[test]
fn usage_total_saturates() {
    assert_eq!(usage_info(u32::MAX, 5).total_tokens, u32::MAX);
}

#[test]
fn collector_gathers_text_calls_and_final_counts() {
    let mut c = CompletionCollector::new();
    c.absorb(StreamToken::text("Hel".into()));
    c.absorb(StreamToken::text("lo".into()));
    let mut tool = StreamToken::text(String::new());
    tool.tool_calls = Some(Json::Array(vec![
        obj(vec![("function", obj(vec![("name", s("ok_tool"))]))]),
        obj(vec![("nofunction", Json::Null)]),
    ]));
    c.absorb(tool);
    let mut fin = StreamToken::done();
    fin.prompt_tokens = Some(3);
    fin.completion_tokens = Some(4);
    c.absorb(fin);
    c.absorb(StreamToken::text("ignored".into()));
    assert_eq!(c.content, "Hello");
    assert_eq!(c.tool_calls.len(), 1);
    assert_eq!(c.finish_reason, "tool_calls");
    let done = c.into_completion("chatcmpl-1".into(), 9, "m".into(), None);
    assert_eq!(done.object, "chat.completion");
    assert_eq!(done.choices[0].message.content.as_deref(), Some("Hello"));
    assert_eq!(done.usage.total_tokens, 7);
    assert_eq!(done.choices[0].finish_reason, "tool_calls");
}

// ── Ollama responses ─────────────────────────────────────────────────────────

#[test]
fn chat_response_text_content() {
    let resp = build_chat_response("llama3.2", "2026-03-15T00:00:00Z", "Hello World".to_string(), None, 10, 5);
    assert_eq!(bool_at(&resp, "done"), Some(true));
    assert_eq!(text_at(&resp, "done_reason"), Some("stop"));
    let m = get_field(&resp, "message").unwrap();
    assert_eq!(text_at(m, "role"), Some("assistant"));
    assert_eq!(text_at(m, "content"), Some("Hello World"));
    assert_eq!(num_at(&resp, "prompt_eval_count").as_deref(), Some("10"));
    assert_eq!(num_at(&resp, "eval_count").as_deref(), Some("5"));
}

#[test]
fn generate_response_field() {
    let resp = build_generate_response("llama3.2", "2026-03-15T00:00:00Z", "Paris".to_string(), 8, 3);
    assert_eq!(bool_at(&resp, "done"), Some(true));
    assert_eq!(text_at(&resp, "done_reason"), Some("stop"));
    assert_eq!(text_at(&resp, "response"), Some("Paris"));
    assert!(get_field(&resp, "message").is_none());
    assert_eq!(num_at(&resp, "prompt_eval_count").as_deref(), Some("8"));
    assert_eq!(num_at(&resp, "eval_count").as_deref(), Some("3"));
}

#[test]
fn chat_response_tool_calls() {
    let tc = Json::Array(vec![obj(vec![("function", obj(vec![("name", s("get_weather"))]))])]);
    let resp = build_chat_response("llama3.2", "2026-03-15T00:00:00Z", String::new(), Some(tc), 15, 20);
    assert_eq!(text_at(&resp, "done_reason"), Some("tool_calls"));
    let m = get_field(&resp, "message").unwrap();
    assert_eq!(text_at(m, "content"), Some(""));
    assert!(matches!(get_field(m, "tool_calls"), Some(Json::Array(v)) if v.len() == 1));
    assert_eq!(bool_at(&resp, "done"), Some(true));
}

#[test]
fn response_has_timing_fields() {
    for resp in [
        build_generate_response("m", "t", String::new(), 0, 0),
        build_chat_response("m", "t", String::new(), None, 0, 0),
    ] {
        assert_eq!(num_at(&resp, "total_duration").as_deref(), Some("0"));
        assert_eq!(num_at(&resp, "load_duration").as_deref(), Some("0"));
        assert_eq!(num_at(&resp, "prompt_eval_duration").as_deref(), Some("0"));
        assert_eq!(num_at(&resp, "eval_duration").as_deref(), Some("0"));
    }
}

#[test]
fn response_includes_model_and_timestamp() {
    let ts = "2026-03-15T12:00:00Z";
    let chat = build_chat_response("llava:7b", ts, String::new(), None, 0, 0);
    let generate = build_generate_response("llava:7b", ts, String::new(), 0, 0);
    for resp in [&chat, &generate] {
        assert_eq!(text_at(resp, "model"), Some("llava:7b"));
        assert_eq!(text_at(resp, "created_at"), Some(ts));
        assert_eq!(bool_at(resp, "done"), Some(true));
    }
}

#[test]
fn chat_stream_lines() {
    assert!(chat_stream_line("m", "t", Ok(StreamToken::text(String::new()))).is_none());
    let line = chat_stream_line("m", "t", Ok(StreamToken::text("x".into()))).unwrap();
    assert_eq!(bool_at(&line, "done"), Some(false));
    let err = chat_stream_line("m", "t", Err(DomainError::Internal("database down".into()))).unwrap();
    assert_eq!(text_at(&err, "error"), Some("internal processing error"));
}

// ── Provider URLs ────────────────────────────────────────────────────────────

#[test]
fn validate_provider_url_blocks_metadata_endpoints() {
    assert!(provider_url_host("http://metadata.google.internal/computeMetadata/v1/").is_err());
    let h = provider_url_host("http://[fe80::1]:11434").unwrap();
    assert_eq!(h, "fe80::1");
    assert!(check_provider_address(Some(IpAddress::V6([0xfe80, 0, 0, 0, 0, 0, 0, 1]))).is_err());
    let h = provider_url_host("http://[::ffff:169.254.169.254]/latest/").unwrap();
    assert_eq!(h, "::ffff:169.254.169.254");
    assert!(check_provider_address(Some(IpAddress::V6([0, 0, 0, 0, 0, 0xffff, 0xa9fe, 0xa9fe]))).is_err());
    let h = provider_url_host("http://169.254.169.254/latest/meta-data/").unwrap();
    assert_eq!(h, "169.254.169.254");
    assert!(check_provider_address(Some(IpAddress::V4(169, 254, 169, 254))).is_err());
}

#[test]
fn provider_url_allows_local_hosts() {
    assert_eq!(provider_url_host("http://192.168.1.10:11434").unwrap(), "192.168.1.10");
    assert!(check_provider_address(Some(IpAddress::V4(192, 168, 1, 10))).is_ok());
    assert!(check_provider_address(None).is_ok());
    assert!(provider_url_host("ftp://x").is_err());
}

// ── Health ───────────────────────────────────────────────────────────────────

#[test]
fn percent_encode_examples() {
    assert_eq!(percent_encode("a-b_c.d~"), "a-b_c.d~");
    assert_eq!(percent_encode("a b&c"), "a%20b%26c");
    assert_eq!(percent_encode("é"), "%C3%A9");
}

#[test]
fn service_status_aggregates_probes() {
    let probes = vec![
        SvcProbe { status: "ok".into(), ms: 3, t: 10 },
        SvcProbe { status: "down".into(), ms: 9, t: 12 },
        SvcProbe { status: "ok".into(), ms: 4, t: 12 },
    ];
    let st = service_status("valkey", &probes).unwrap();
    assert_eq!(st.status, "degraded");
    assert_eq!(st.latency_ms, Some(4));
    assert_eq!(st.checked_at, Some(12));
    assert!(service_status("valkey", &vec![]).is_none());
}

#[test]
fn pod_and_topic_stats() {
    assert!(pod_status("a".into(), 0, 30, 1_000_000).is_none());
    assert_eq!(pod_status("a".into(), 25, 30, 1_000_000).unwrap().last_heartbeat_ms, Some(995_000));
    let t = topic_stats("otel-logs", Some(100), None, None, None);
    assert_eq!(t.lag, 100);
    assert!(!t.is_active);
    assert_eq!(
        watermark_line("vectorized_cluster_partition_high_watermark{topic=\"otel-logs\",partition=\"0\"} 42"),
        Some(("otel-logs".to_string(), "42".to_string()))
    );
    assert_eq!(watermark_line("other 1"), None);
}

// ── Sessions and admin ───────────────────────────────────────────────────────

#[test]
fn cookie_headers() {
    let (a, r) = auth_cookie_headers("tok;en", "ref\r\n");
    assert_eq!(a, "veronex_access_token=token; HttpOnly; Secure; SameSite=Strict; Path=/; Max-Age=3600");
    assert_eq!(r, "veronex_refresh_token=ref; HttpOnly; Secure; SameSite=Strict; Path=/v1/auth; Max-Age=604800");
    let (ca, _) = clear_cookie_headers();
    assert_eq!(ca, "veronex_access_token=; HttpOnly; Secure; SameSite=Strict; Path=/; Max-Age=0");
}

#[test]
fn login_and_refresh_checks() {
    assert_eq!(check_login_rate(5, 6), Err(AppError::TooManyRequests { retry_after: 300 }));
    assert_eq!(check_login_rate(0, 600), Ok(()));
    assert_eq!(check_refresh(true, true, false, Some(true)), Some(RefreshRefusal::AlreadyUsed));
    assert_eq!(check_refresh(true, true, true, Some(true)), None);
}

#[test]
fn provider_registration_rules() {
    assert_eq!(
        register_provider_start("nope", None, None),
        Err(AppError::BadRequest("provider_type must be 'ollama' or 'gemini'".to_string()))
    );
    assert_eq!(
        register_provider_start("ollama", Some(""), None),
        Err(AppError::BadRequest("url is required for ollama providers".to_string()))
    );
    assert_eq!(
        register_provider_start("Ollama", Some("http://h:1/x"), None),
        Ok(ProviderRegistration::Ollama { url_host: "h".to_string() })
    );
    assert_eq!(
        register_provider_start("gemini", None, Some("")),
        Err(AppError::BadRequest("api_key is required for gemini providers".to_string()))
    );
    assert!(check_initial_status(ProviderType::Ollama, LlmProviderStatus::Offline).is_err());
    assert!(check_initial_status(ProviderType::Gemini, LlmProviderStatus::Offline).is_ok());
}

#[test]
fn mcp_rules() {
    let reg = register_mcp_start("  tools ", " weather ", " http://h:9/ ").unwrap();
    assert_eq!(reg.name, "tools");
    assert_eq!(reg.slug, "weather");
    assert_eq!(reg.url, "http://h:9/");
    assert!(register_mcp_start(" ", "a", "http://h").is_err());
    assert!(register_mcp_start("n", "Bad", "http://h").is_err());
    assert_eq!(mcp_timeout(None), Ok(30));
    assert!(mcp_timeout(Some(301)).is_err());
    let row = McpServerState { name: "n".into(), slug: "s".into(), url: "http://a".into(), is_enabled: true };
    let patch = McpServerPatch { name: None, slug: Some(" t ".into()), url: Some("http://b".into()), is_enabled: None };
    let up = plan_mcp_update(&row, &patch, None).unwrap();
    assert_eq!(up.slug, "t");
    assert!(up.url_changed && up.slug_changed);
    assert_eq!(mcp_session_action(true, true, true, false), McpSessionAction::Connect { disconnect_first: true });
    assert_eq!(mcp_session_action(true, false, false, false), McpSessionAction::Disconnect);
    assert_eq!(mcp_session_action(true, true, false, false), McpSessionAction::Keep);
}

#[test]
fn account_rules() {
    assert_eq!(choose_roles(vec![1, 2], Some(3)), RoleChoice::Listed(vec![1, 2]));
    assert_eq!(choose_roles(vec![], Some(3)), RoleChoice::Single(3));
    assert_eq!(choose_roles(vec![], None), RoleChoice::DefaultViewer);
    assert_eq!(
        account_insert_error("duplicate key value"),
        AppError::Conflict("username already exists".to_string())
    );
    assert_eq!(account_insert_error("boom"), AppError::Internal("boom".to_string()));
}

// ── Review additions ─────────────────────────────────────────────────────────

#[test]
fn estimate_tokens_counts_characters() {
    assert_eq!(estimate_tokens("abcdefgh"), 2);
    assert_eq!(estimate_tokens("안녕하세요"), 1);
    assert_eq!(estimate_tokens(""), 0);
}

#[test]
fn inject_skips_existing_date_line() {
    let mut messages = vec![user_system("Current date: 2025-01-01"), user_msg("hi")];
    inject_current_datetime(&mut messages);
    assert_eq!(messages.len(), 2);
    assert!(matches!(&messages[0].content, Some(MessageContent::Text(t)) if t == "Current date: 2025-01-01"));
    let mut other = vec![user_system("current date is lower-case"), user_msg("hi")];
    inject_current_datetime(&mut other);
    assert_eq!(other.len(), 3);
}

#[test]
fn provider_address_blocks_loopback_and_mapped() {
    assert!(check_provider_address(Some(IpAddress::V6([0, 0, 0, 0, 0, 0, 0, 1]))).is_err());
    assert!(check_provider_address(Some(IpAddress::V6([0, 0, 0, 0, 0, 0xffff, 0x0a00, 0x0001]))).is_err());
    assert!(check_provider_address(Some(IpAddress::V4(127, 0, 0, 1))).is_ok());
    assert!(check_provider_address(Some(IpAddress::V6([0x2001, 0xdb8, 0, 0, 0, 0, 0, 1]))).is_ok());
}

#[test]
fn provider_url_host_skips_userinfo() {
    assert_eq!(provider_url_host("http://x@169.254.169.254/").unwrap(), "169.254.169.254");
    assert_eq!(provider_url_host("http://a:b@c@[::1]:80/p").unwrap(), "::1");
    assert!(url_host_cut_ok("http://x@h:1/"));
    assert!(!url_host_cut_ok("http://]x[/"));
}

#[test]
fn mcp_registration_errors_name_each_field() {
    assert_eq!(
        register_mcp_start("n", "Bad", "http://h").unwrap_err(),
        AppError::BadRequest("slug must match [a-z][a-z0-9_]*".into())
    );
    assert_eq!(
        register_mcp_start("n", "ok", "ftp://h").unwrap_err(),
        AppError::BadRequest("provider URL must use http:// or https://".into())
    );
    assert_eq!(
        register_mcp_start("n", "ok", "http://metadata.google.internal/").unwrap_err(),
        AppError::BadRequest("metadata endpoints are not allowed".into())
    );
    assert!(register_mcp_start("n", "ok", "http://h").is_ok());
}

#[test]
fn mcp_update_errors_and_success() {
    let row = McpServerState { name: "n".into(), slug: "s".into(), url: "http://a".into(), is_enabled: true };
    let bad_url = McpServerPatch { name: None, slug: None, url: Some("ws://b".into()), is_enabled: None };
    assert_eq!(
        plan_mcp_update(&row, &bad_url, None).unwrap_err(),
        AppError::BadRequest("provider URL must use http:// or https://".into())
    );
    let bad_slug = McpServerPatch { name: None, slug: Some(" 9x ".into()), url: None, is_enabled: None };
    assert_eq!(
        plan_mcp_update(&row, &bad_slug, None).unwrap_err(),
        AppError::BadRequest("slug must match [a-z][a-z0-9_]*".into())
    );
    let none = McpServerPatch { name: None, slug: None, url: None, is_enabled: None };
    let up = plan_mcp_update(&row, &none, None).unwrap();
    assert!(!up.url_changed && !up.slug_changed);
    let link_local = McpServerPatch {
        name: None,
        slug: Some("9bad".into()),
        url: Some("http://169.254.169.254/".into()),
        is_enabled: None,
    };
    assert_eq!(
        plan_mcp_update(&row, &link_local, Some(IpAddress::V4(169, 254, 169, 254))).unwrap_err(),
        AppError::BadRequest("metadata endpoints are not allowed".into())
    );
}

#[test]
fn register_provider_start_names_url_error() {
    assert_eq!(
        register_provider_start("ollama", Some("ftp://h"), None).unwrap_err(),
        AppError::BadRequest("provider URL must use http:// or https://".into())
    );
    assert_eq!(
        register_provider_start("ollama", Some("http://metadata.google.internal"), None).unwrap_err(),
        AppError::BadRequest("metadata endpoints are not allowed".into())
    );
}

#[test]
fn api_key_hash_is_64_hex_digits() {
    let h = hash_api_key("iq_abc");
    assert_eq!(h.len(), 64);
    assert!(h.chars().all(|c| c.is_ascii_digit() || ('a'..='f').contains(&c)));
}

#[test]
fn ciphertext_is_longer_than_plaintext() {
    let key = [7u8; 32];
    let c = encrypt("secret", &key).unwrap();
    assert!(c.len() > "secret".len());
    assert_eq!(c.len(), 4 * ((12 + 6 + 16 + 2) / 3));
}

#[test]
fn secs_since_poll_reads_clickhouse_time() {
    assert_eq!(secs_since_poll("2024-01-01 00:00:00", 1_704_067_230), Some(30));
    assert_eq!(secs_since_poll("2024-01-01 00:01:00", 1_704_067_230), Some(-30));
    assert_eq!(secs_since_poll("not a time", 1_704_067_230), None);
    assert_eq!(secs_since_poll("2024-01-01T00:00:00", 1_704_067_230), None);
}

#[test]
fn register_provider_checked_refuses_only_uncuttable_ollama_urls() {
    assert_eq!(register_provider_checked("ollama", Some("http://]x[/"), None), None);
    assert_eq!(
        register_provider_checked("ollama", Some("ftp://]x[/"), None),
        Some(Err(AppError::BadRequest("provider URL must use http:// or https://".into())))
    );
    assert_eq!(register_provider_checked("gemini", Some("http://]x[/"), Some("k")), Some(Ok(ProviderRegistration::Gemini)));
}
