use veronex::domain::entities::{Account, ApiKey, GpuServer, LlmProvider};
use veronex::domain::enums::{AccountRole, KeyTier, KeyType, LlmProviderStatus, ProviderType, ALL_MENUS, ALL_PERMISSIONS};
use veronex::domain::ids::RoleId;
use veronex::domain::services::generate_api_key;
use veronex::http::admin::{heartbeat_online, tool_summaries};
use veronex::http::error::AppError;
use veronex::http::keys::{check_key_owner, key_summaries, new_api_key, patch_tier, CreateKeyRequest};
use veronex::http::models::{ollama_model_row, selected_models, stored_selection};
use veronex::http::paging::{conversation_window, title_pattern};
use veronex::http::providers::{content_type_or_json, metrics_targets, pick_ollama, ProviderSummary};
use veronex::http::rate_limit::RateLimitReply;
use veronex::http::session::{account_summary, build_session, merge_roles, resolve_roles, RoleRow};
use veronex::json::{as_str, get_field, Json};
use veronex::text::{insert_sorted, str_less};

fn s(x: &str) -> String {
    x.to_string()
}

fn strings(xs: &[&str]) -> Vec<String> {
    xs.iter().map(|x| x.to_string()).collect()
}

fn provider(name: &str, kind: ProviderType, url: &str, active: bool) -> LlmProvider {
    LlmProvider {
        id: 0x0192_0000_0000_7000_8000_0000_0000_0001,
        name: s(name),
        provider_type: kind,
        url: s(url),
        api_key_encrypted: None,
        is_active: active,
        total_vram_mb: 8192,
        gpu_index: Some(0),
        server_id: None,
        is_free_tier: false,
        num_parallel: 4,
        status: LlmProviderStatus::Online,
        registered_at: 1_700_000_000_000_000,
    }
}

fn key(name: &str, kind: KeyType) -> ApiKey {
    ApiKey {
        id: 9,
        key_hash: s("hash"),
        key_prefix: s("iq_01ARZ3NDEK"),
        tenant_id: s("tenant-1"),
        name: s(name),
        is_active: true,
        rate_limit_rpm: 0,
        rate_limit_tpm: 0,
        expires_at: None,
        created_at: 5,
        deleted_at: None,
        key_type: kind,
        tier: KeyTier::Paid,
        account_id: None,
    }
}

fn role(name: &str, perms: &[&str], menus: &[&str], system: bool) -> RoleRow {
    RoleRow { name: s(name), permissions: strings(perms), menus: strings(menus), is_system: system }
}

// ── Provider summaries ───────────────────────────────────────────────────────

#[test]
fn provider_summary_from_llm_provider_ollama() {
    let b = provider("test-ollama", ProviderType::Ollama, "http://localhost:11434", true);
    let s = ProviderSummary::from_provider(b);
    assert_eq!(s.provider_type, "ollama");
    assert_eq!(s.status, "online");
    assert_eq!(s.url, "http://localhost:11434");
    assert!(s.is_active);
    assert_eq!(s.gpu_index, Some(0));
    assert_eq!(s.total_vram_mb, 8192);
}

#[test]
fn provider_summary_from_llm_provider_gemini() {
    let mut b = provider("gemini-pro", ProviderType::Gemini, "", true);
    b.api_key_encrypted = Some(s("secret"));
    b.status = LlmProviderStatus::Offline;
    let s = ProviderSummary::from_provider(b);
    assert_eq!(s.provider_type, "gemini");
    assert_eq!(s.status, "offline");
    assert_eq!(s.api_key_masked.as_deref(), Some("****"));
}

#[test]
fn provider_summary_masks_long_key() {
    let mut b = provider("gemini-pro", ProviderType::Gemini, "", true);
    b.api_key_encrypted = Some(s("AIzaSyD-1234567890x1y2"));
    assert_eq!(ProviderSummary::from_provider(b).api_key_masked.as_deref(), Some("AIza...x1y2"));
}

// ── Metrics targets ──────────────────────────────────────────────────────────

#[test]
fn metrics_targets_servers_then_active_ollama() {
    let servers = vec![
        GpuServer { id: 1, name: s("gpu-a"), node_exporter_url: Some(s("http://10.0.0.1:9100")), registered_at: 0 },
        GpuServer { id: 2, name: s("gpu-b"), node_exporter_url: Some(String::new()), registered_at: 0 },
        GpuServer { id: 3, name: s("gpu-c"), node_exporter_url: None, registered_at: 0 },
    ];
    let mut linked = provider("ol-1", ProviderType::Ollama, "http://10.0.0.1:11434", true);
    linked.server_id = Some(1);
    let providers = vec![
        linked,
        provider("ol-2", ProviderType::Ollama, "http://10.0.0.2:11434", false),
        provider("gem", ProviderType::Gemini, "", true),
    ];
    let ts = metrics_targets(&servers, &providers);
    assert_eq!(ts.len(), 2);
    assert_eq!(ts[0].targets, vec![s("http://10.0.0.1:9100")]);
    assert_eq!(ts[0].labels[0], (s("type"), s("server")));
    assert_eq!(ts[0].labels[1], (s("server_id"), s("00000000-0000-0000-0000-000000000001")));
    assert_eq!(ts[0].labels[2], (s("server_name"), s("gpu-a")));
    assert_eq!(ts[1].targets, vec![s("http://10.0.0.1:11434")]);
    assert_eq!(ts[1].labels[0], (s("type"), s("ollama")));
    assert_eq!(ts[1].labels[2], (s("provider_name"), s("ol-1")));
    assert_eq!(ts[1].labels[3], (s("total_vram_mb"), s("8192")));
    assert_eq!(ts[1].labels[4], (s("server_id"), s("00000000-0000-0000-0000-000000000001")));
}

#[test]
fn pass_through_picks_first_ollama() {
    let ps = vec![provider("g", ProviderType::Gemini, "", true), provider("o", ProviderType::Ollama, "http://o", true)];
    assert_eq!(pick_ollama(&ps).unwrap(), 1);
    match pick_ollama(&vec![]) {
        Err(AppError::ServiceUnavailable(m)) => assert_eq!(m, "no active Ollama provider"),
        other => panic!("unexpected {:?}", other),
    }
    assert_eq!(content_type_or_json(None), "application/json");
    assert_eq!(content_type_or_json(Some("text/plain")), "text/plain");
}

// ── Keys ─────────────────────────────────────────────────────────────────────

fn create_request(rpm: i32, tpm: i32) -> CreateKeyRequest {
    CreateKeyRequest {
        tenant_id: s("tenant-1"),
        name: s("my-key"),
        rate_limit_rpm: rpm,
        rate_limit_tpm: tpm,
        expires_at: None,
        tier: KeyTier::Free,
    }
}

#[test]
fn new_key_takes_generated_parts() {
    let g = generate_api_key();
    let (id, plaintext, hash, prefix) = (g.id, g.plaintext.clone(), g.key_hash.clone(), g.key_prefix.clone());
    let (k, resp) = new_api_key(create_request(60, 100_000), g, 42).unwrap();
    assert_eq!(k.id, id);
    assert_eq!(k.key_hash, hash);
    assert_eq!(k.key_prefix, prefix);
    assert!(k.is_active);
    assert_eq!(k.key_type, KeyType::Standard);
    assert_eq!(k.tier, KeyTier::Free);
    assert_eq!((k.rate_limit_rpm, k.rate_limit_tpm, k.created_at), (60, 100_000, 42));
    assert_eq!(resp.key, plaintext);
    assert_eq!(resp.tenant_id, "tenant-1");
}

#[test]
fn new_key_refuses_negative_limits() {
    match new_api_key(create_request(-1, -1), generate_api_key(), 0) {
        Err(AppError::BadRequest(m)) => assert_eq!(m, "rate_limit_rpm must be non-negative"),
        other => panic!("unexpected {:?}", other),
    }
    match new_api_key(create_request(0, -5), generate_api_key(), 0) {
        Err(AppError::BadRequest(m)) => assert_eq!(m, "rate_limit_tpm must be non-negative"),
        other => panic!("unexpected {:?}", other),
    }
}

#[test]
fn key_listing_hides_test_keys() {
    let keys = vec![key("a", KeyType::Standard), key("t", KeyType::Test), key("b", KeyType::Standard)];
    let out = key_summaries(&keys);
    assert_eq!(out.len(), 2);
    assert_eq!(out[0].name, "a");
    assert_eq!(out[1].name, "b");
    assert_eq!(out[1].key_prefix, "iq_01ARZ3NDEK");
}

#[test]
fn key_owner_and_patch_tier() {
    assert!(check_key_owner("t1", "t1").is_ok());
    match check_key_owner("t1", "t2") {
        Err(AppError::Forbidden(m)) => assert_eq!(m, "not your key"),
        other => panic!("unexpected {:?}", other),
    }
    assert_eq!(patch_tier(None).unwrap(), None);
    assert_eq!(patch_tier(Some("FREE")).unwrap(), Some(KeyTier::Free));
    match patch_tier(Some("gold")) {
        Err(AppError::BadRequest(m)) => assert_eq!(m, "invalid tier: gold"),
        other => panic!("unexpected {:?}", other),
    }
}

// ── Model selections ─────────────────────────────────────────────────────────

#[test]
fn selections_last_row_wins_and_defaults_by_kind() {
    let sel = vec![(s("llama3"), false), (s("qwen"), true), (s("llama3"), true)];
    assert_eq!(stored_selection(&sel, "llama3"), Some(true));
    assert_eq!(stored_selection(&sel, "other"), None);
    let models = strings(&["llama3", "mistral"]);
    assert_eq!(selected_models(&models, &sel, ProviderType::Ollama), vec![(s("llama3"), true), (s("mistral"), true)]);
    assert_eq!(selected_models(&models, &vec![], ProviderType::Gemini), vec![(s("llama3"), false), (s("mistral"), false)]);
}

#[test]
fn ollama_model_row_fields() {
    let r = ollama_model_row(s("llava:7b"), 3, -1, true);
    assert!(r.is_vision);
    assert_eq!((r.provider_count, r.max_ctx), (3, 0));
    let r = ollama_model_row(s("llama3:8b"), 1, 8192, false);
    assert!(!r.is_vision && !r.is_enabled);
    assert_eq!(r.max_ctx, 8192);
}

// ── Roles ────────────────────────────────────────────────────────────────────

#[test]
fn roles_merge_sorted_without_duplicates() {
    let rows = vec![
        role("viewer", &["dashboard_view", "api_test"], &["usage", "dashboard"], false),
        role("ops", &["api_test", "audit_view"], &["dashboard"], false),
    ];
    let r = resolve_roles(&rows).unwrap();
    assert!(!r.is_super);
    assert_eq!(r.name, "viewer");
    assert_eq!(r.permissions, strings(&["api_test", "audit_view", "dashboard_view"]));
    assert_eq!(r.menus, strings(&["dashboard", "usage"]));
}

#[test]
fn super_role_gets_everything() {
    let rows = vec![role("viewer", &["api_test"], &[], false), role("super", &[], &[], true)];
    let r = resolve_roles(&rows).unwrap();
    assert!(r.is_super);
    assert_eq!(r.name, "super");
    let mut perms: Vec<String> = ALL_PERMISSIONS.iter().map(|x| x.to_string()).collect();
    perms.sort();
    let mut menus: Vec<String> = ALL_MENUS.iter().map(|x| x.to_string()).collect();
    menus.sort();
    assert_eq!(r.permissions, perms);
    assert_eq!(r.menus, menus);
    // A non-system role named super grants nothing extra.
    let fake = resolve_roles(&vec![role("super", &["api_test"], &[], false)]).unwrap();
    assert!(!fake.is_super);
    assert_eq!(fake.permissions, strings(&["api_test"]));
}

#[test]
fn no_roles_is_an_internal_error() {
    match resolve_roles(&vec![]) {
        Err(AppError::Internal(m)) => assert_eq!(m, "no roles assigned to account"),
        other => panic!("unexpected {:?}", other),
    }
    let empty = merge_roles(&vec![]);
    assert_eq!(empty.name, "");
    assert!(empty.permissions.is_empty());
}

#[test]
fn account_summary_lists_roles_and_merges() {
    let a = Account {
        id: 77,
        username: s("alice"),
        password_hash: s("$argon2id$..."),
        name: s("Alice"),
        email: None,
        role: AccountRole::Admin,
        department: Some(s("ML")),
        position: None,
        is_active: true,
        created_by: None,
        last_login_at: None,
        created_at: 3,
    deleted_at: None,
    };
    let rows = vec![role("ops", &["audit_view"], &["audit"], false)];
    let sum = account_summary(a, &vec![5], &rows);
    assert_eq!(sum.username, "alice");
    assert_eq!(sum.roles.len(), 1);
    assert_eq!(sum.roles[0].id, RoleId(5));
    assert_eq!(sum.roles[0].name, "ops");
    assert_eq!(sum.role_name, "ops");
    assert_eq!(sum.permissions, strings(&["audit_view"]));
    assert_eq!(sum.department.as_deref(), Some("ML"));
}

#[test]
fn new_session_is_unused_and_unrevoked() {
    let se = build_session(1, 2, 3, s("hash"), Some(s("10.0.0.9")), 100, 3700);
    assert_eq!((se.id, se.account_id, se.jti), (1, 2, 3));
    assert_eq!(se.refresh_token_hash.as_deref(), Some("hash"));
    assert_eq!(se.created_at, 100);
    assert_eq!(se.expires_at, 3700);
    assert!(se.last_used_at.is_none() && se.revoked_at.is_none());
}

// ── Text order ───────────────────────────────────────────────────────────────

#[test]
fn text_order_matches_str_order() {
    let cases = [("a", "b"), ("ab", "abc"), ("abc", "abd"), ("", "a"), ("b", "a"), ("same", "same"), ("é", "z")];
    for (a, b) in cases {
        assert_eq!(str_less(a, b), a < b, "{a} < {b}");
    }
    let mut v: Vec<String> = Vec::new();
    for x in ["m", "b", "z", "b", "a"] {
        insert_sorted(&mut v, x);
    }
    assert_eq!(v, strings(&["a", "b", "m", "z"]));
}

// ── Lists and limits ─────────────────────────────────────────────────────────

#[test]
fn conversation_list_window_and_pattern() {
    assert_eq!(conversation_window(50, 0), (50, 0));
    assert_eq!(conversation_window(0, -3), (1, 0));
    assert_eq!(conversation_window(1000, 10), (200, 10));
    assert_eq!(title_pattern(Some("Hello")), Some(s("%hello%")));
    assert_eq!(title_pattern(Some("")), None);
    assert_eq!(title_pattern(None), None);
}

#[test]
fn mcp_tool_summaries_and_heartbeats() {
    let summary = Json::Array(vec![
        Json::Object(vec![
            (s("name"), Json::String(s("search"))),
            (s("namespaced_name"), Json::String(s("web_search"))),
            (s("description"), Json::String(s("Searches the web"))),
        ]),
        Json::Object(vec![(s("name"), Json::String(s("fetch")))]),
    ]);
    let tools = tool_summaries(&summary);
    assert_eq!(tools.len(), 2);
    assert_eq!(tools[0].namespaced_name, "web_search");
    assert_eq!(tools[0].description.as_deref(), Some("Searches the web"));
    assert_eq!(tools[1].namespaced_name, "");
    assert!(tools[1].description.is_none());
    assert!(tool_summaries(&Json::Null).is_empty());
    assert_eq!(heartbeat_online(3, &vec![Some(s("1")), None]), vec![true, false, false]);
}

#[test]
fn rate_limit_reply_body() {
    let r = RateLimitReply { limit_type: s("rpm"), limit: 60, retry_after_secs: 60 };
    let b = r.body();
    assert_eq!(get_field(&b, "error").and_then(as_str), Some("rate_limit_exceeded"));
    assert_eq!(get_field(&b, "limit_type").and_then(as_str), Some("rpm"));
    assert!(matches!(get_field(&b, "limit"), Some(Json::Number(n)) if n == "60"));
    assert_eq!(r.retry_after_header(), "60");
}

// ── Transcriptions ───────────────────────────────────────────────────────────

use veronex::http::dto::JobsQuery;
use veronex::http::media::TranscriptionForm;
use veronex::http::paging::job_filters;
use veronex::http::session::sanitize_cookie_value;

#[test]
fn transcription_form_fields() {
    let mut f = TranscriptionForm::new();
    assert!(f.on_field("model", vec![], "whisper-1").is_ok());
    assert!(f.on_field("language", vec![], "").is_ok());
    assert!(f.language.is_none());
    assert!(f.on_field("language", vec![], "ko").is_ok());
    assert!(f.on_field("diarize", vec![], "true").is_ok());
    assert!(f.on_field("file", vec![1, 2, 3], "").is_ok());
    let req = f.finish().unwrap();
    assert_eq!(req.audio_bytes, vec![1, 2, 3]);
    assert_eq!(req.language.as_deref(), Some("ko"));
    assert!(req.diarize);
}

#[test]
fn transcription_form_refusals() {
    let mut f = TranscriptionForm::new();
    match f.on_field("file", vec![0u8; 26_214_401], "") {
        Err(AppError::BadRequest(m)) => assert_eq!(m, "Audio file exceeds 25 MB"),
        other => panic!("unexpected {:?}", other),
    }
    assert!(f.on_field("file", vec![0u8; 26_214_400], "").is_ok());
    match TranscriptionForm::new().finish() {
        Err(AppError::BadRequest(m)) => assert_eq!(m, "Missing required field: file"),
        other => panic!("unexpected {:?}", other),
    }
    let mut g = TranscriptionForm::new();
    assert!(g.on_field("diarize", vec![], "TRUE").is_ok());
    assert!(!g.diarize);
}

#[test]
fn job_list_filters() {
    let q = JobsQuery {
        limit: 5000,
        offset: -1,
        status: Some(s("completed,failed")),
        q: Some(s("hello")),
        source: Some(String::new()),
        model: None,
        provider: Some(s("gpu-1")),
    };
    let f = job_filters(&q);
    assert_eq!((f.limit, f.offset), (1000, 0));
    assert_eq!(f.status.as_deref(), Some("completed,failed"));
    assert_eq!(f.search_like.as_deref(), Some("%hello%"));
    assert!(f.source.is_none() && f.model.is_none());
    assert_eq!(f.provider.as_deref(), Some("gpu-1"));
}

#[test]
fn sanitized_cookie_is_stable() {
    let once = sanitize_cookie_value("a;b,c\r\nd");
    assert_eq!(once, "abcd");
    assert_eq!(sanitize_cookie_value(&once), once);
}
