use veronex::domain::entities::{Account, GpuServer, LlmProvider};
use veronex::domain::enums::{AccountRole, LlmProviderStatus, ProviderType};
use veronex::domain::errors::DomainError;
use veronex::domain::ids::GpuServerId;
use veronex::domain::value_objects::StreamToken;
use veronex::http::admin::{apply_account_update, check_mcp_settings, check_update_roles, PatchMcpSettingsRequest};
use veronex::http::dto::{SubmitRequest, UpdateGpuServerRequest, UpdateProviderRequest};
use veronex::http::error::AppError;
use veronex::http::native::{bad_job_id_event, check_submit, native_stream_event, replay_event, sse_admission, ReplayEvent};
use veronex::http::providers::{apply_provider_update, provider_update_name, update_url_needs_check};
use veronex::http::servers::{apply_server_update, register_server_fields, server_checks, verify_server_url, GpuServerSummary};
use veronex::json::{as_str, get_field, Json};

fn s(x: &str) -> String {
    x.to_string()
}

fn bad_request(r: Result<impl std::fmt::Debug, AppError>) -> String {
    match r {
        Err(AppError::BadRequest(m)) => m,
        other => panic!("unexpected {:?}", other),
    }
}

fn provider() -> LlmProvider {
    LlmProvider {
        id: 1,
        name: s("old"),
        provider_type: ProviderType::Gemini,
        url: s("http://old"),
        api_key_encrypted: Some(s("enc")),
        is_active: true,
        total_vram_mb: 100,
        gpu_index: Some(1),
        server_id: Some(9),
        is_free_tier: false,
        num_parallel: 4,
        status: LlmProviderStatus::Degraded,
        registered_at: 5,
    }
}

#[test]
fn provider_update_patch() {
    assert_eq!(bad_request(provider_update_name("   ")), "name must not be empty");
    assert_eq!(provider_update_name("  gpu  ").unwrap(), "gpu");
    assert!(update_url_needs_check(Some("http://x")));
    assert!(!update_url_needs_check(Some("")));
    assert!(!update_url_needs_check(None));
    let req = UpdateProviderRequest {
        name: s("ignored"),
        url: None,
        api_key: Some(String::new()),
        total_vram_mb: Some(200),
        gpu_index: None,
        server_id: None,
        is_free_tier: Some(true),
        num_parallel: None,
        is_active: Some(false),
    };
    let p = apply_provider_update(provider(), s("new"), req);
    assert_eq!(p.name, "new");
    assert_eq!(p.url, "http://old");
    assert_eq!(p.api_key_encrypted.as_deref(), Some("enc"));
    assert_eq!(p.total_vram_mb, 200);
    assert_eq!((p.gpu_index, p.server_id), (None, None));
    assert!(p.is_free_tier && !p.is_active);
    assert_eq!(p.num_parallel, 4);
    assert_eq!(p.status, LlmProviderStatus::Degraded);
}

#[test]
fn server_registration_checks() {
    assert_eq!(bad_request(verify_server_url("  ")), "url is required");
    assert_eq!(bad_request(verify_server_url("ftp://x")), "url must start with http:// or https://");
    assert_eq!(verify_server_url(" http://10.0.0.1:9100 ").unwrap(), "http://10.0.0.1:9100");
    assert_eq!(bad_request(register_server_fields(" ", Some("http://x"))), "name is required");
    assert_eq!(bad_request(register_server_fields("a", None)), "node_exporter_url is required");
    assert_eq!(bad_request(register_server_fields("a", Some("x:9100"))), "url must start with http:// or https://");
    assert_eq!(register_server_fields(" gpu ", Some(" https://h ")).unwrap(), (s("gpu"), s("https://h")));
    match server_checks(1, true) {
        Err(AppError::Conflict(m)) => assert_eq!(m, "a server with this URL is already registered"),
        other => panic!("unexpected {:?}", other),
    }
    match server_checks(0, false) {
        Err(AppError::BadGateway(m)) => assert_eq!(m, "node-exporter is not reachable at the given URL"),
        other => panic!("unexpected {:?}", other),
    }
    assert!(server_checks(0, true).is_ok());
}

#[test]
fn server_update_and_summary() {
    let srv = GpuServer { id: 3, name: s("gpu"), node_exporter_url: Some(s("http://a")), registered_at: 7 };
    let u = apply_server_update(srv.clone(), UpdateGpuServerRequest { name: Some(s("  ")), node_exporter_url: Some(s(" ")) });
    assert_eq!(u.name, "gpu");
    assert_eq!(u.node_exporter_url, None);
    let u = apply_server_update(srv.clone(), UpdateGpuServerRequest { name: Some(s(" b ")), node_exporter_url: None });
    assert_eq!(u.name, "b");
    assert_eq!(u.node_exporter_url.as_deref(), Some("http://a"));
    let sum = GpuServerSummary::from_server(srv);
    assert_eq!(sum.id, GpuServerId(3));
    assert_eq!(sum.registered_at, 7);
}

#[test]
fn account_profile_update() {
    let a = Account {
        id: 1,
        username: s("bob"),
        password_hash: s("h"),
        name: s("Bob"),
        email: Some(s("b@x.io")),
        role: AccountRole::Admin,
        department: None,
        position: Some(s("eng")),
        is_active: true,
        created_by: None,
        last_login_at: None,
        created_at: 0,
        deleted_at: None,
    };
    let u = apply_account_update(a, Some(s("Robert")), None, Some(s("ML")), None);
    assert_eq!(u.name, "Robert");
    assert_eq!(u.email.as_deref(), Some("b@x.io"));
    assert_eq!(u.department.as_deref(), Some("ML"));
    assert_eq!(u.position.as_deref(), Some("eng"));
    assert_eq!(bad_request(check_update_roles(0)), "at least one role is required");
    assert!(check_update_roles(2).is_ok());
}

#[test]
fn mcp_settings_tool_budget() {
    let mut p = PatchMcpSettingsRequest {
        routing_cache_ttl_secs: None,
        tool_schema_refresh_secs: None,
        embedding_model: None,
        max_tools_per_request: Some(0),
        max_routing_cache_entries: None,
    };
    assert_eq!(bad_request(check_mcp_settings(&p)), "max_tools_per_request must be 1–200");
    p.max_tools_per_request = Some(200);
    assert!(check_mcp_settings(&p).is_ok());
    p.max_tools_per_request = None;
    assert!(check_mcp_settings(&p).is_ok());
}

#[test]
fn native_submit_admission() {
    let req = SubmitRequest { prompt: s("hi"), model: s("llama3"), provider_type: s("gemini-free") };
    let (t, tier) = check_submit(&req).unwrap();
    assert_eq!(t, ProviderType::Gemini);
    assert_eq!(tier.as_deref(), Some("free"));
    let req = SubmitRequest { prompt: s("hi"), model: s("llama3"), provider_type: s("ollama") };
    assert_eq!(check_submit(&req).unwrap(), (ProviderType::Ollama, None));
    let big = SubmitRequest { prompt: "x".repeat(1_000_001), model: String::new(), provider_type: s("ollama") };
    assert_eq!(bad_request(check_submit(&big)), "content exceeds maximum length of 1MB");
    let no_model = SubmitRequest { prompt: s("hi"), model: String::new(), provider_type: s("ollama") };
    assert_eq!(bad_request(check_submit(&no_model)), "model name invalid or too long");
}

#[test]
fn native_stream_events() {
    let e = native_stream_event(Ok(StreamToken::text(s("tok"))));
    assert_eq!((e.event, e.data.as_str()), ("token", "tok"));
    let e = native_stream_event(Ok(StreamToken::done()));
    assert_eq!((e.event, e.data.as_str()), ("done", ""));
    let e = native_stream_event(Err(DomainError::Internal(s("connect refused"))));
    assert_eq!((e.event, e.data.as_str()), ("error", "provider communication error"));
    let b = bad_job_id_event();
    assert_eq!((b.event, b.data.as_str()), ("error", "invalid job_id format"));
    assert!(sse_admission(99).is_ok());
    assert_eq!(sse_admission(100), Err("too many concurrent SSE connections"));
}

#[test]
fn replay_events() {
    match replay_event("chatcmpl-1", 9, Ok(StreamToken::text(s("a")))) {
        ReplayEvent::Chunk(c) => {
            assert_eq!(c.id, "chatcmpl-1");
            assert!(c.model.is_none());
            assert_eq!(c.choices[0].delta.content.as_deref(), Some("a"));
        },
        other => panic!("unexpected {:?}", other),
    }
    match replay_event("chatcmpl-1", 9, Ok(StreamToken::done())) {
        ReplayEvent::Chunk(c) => assert_eq!(c.choices[0].finish_reason.as_deref(), Some("stop")),
        other => panic!("unexpected {:?}", other),
    }
    match replay_event("chatcmpl-1", 9, Err(DomainError::Internal(s("secret")))) {
        ReplayEvent::Error(j) => {
            let msg = get_field(&j, "error").and_then(|e| get_field(e, "message")).and_then(as_str);
            assert_eq!(msg, Some("inference failed"));
        },
        other => panic!("unexpected {:?}", other),
    }
    let _ = Json::Null;
}

use veronex::http::ollama::local_model_entry;
use veronex::http::paging::audit_window;

#[test]
fn tags_entry_and_audit_window() {
    let e = local_model_entry("llama3:8b", "2026-03-15T12:00:00+00:00");
    assert_eq!(get_field(&e, "name").and_then(as_str), Some("llama3:8b"));
    assert_eq!(get_field(&e, "model").and_then(as_str), Some("llama3:8b"));
    assert_eq!(get_field(&e, "modified_at").and_then(as_str), Some("2026-03-15T12:00:00+00:00"));
    assert_eq!(get_field(&e, "details").and_then(|d| get_field(d, "format")).and_then(as_str), Some("gguf"));
    assert_eq!(audit_window(None, None), (100, 0));
    assert_eq!(audit_window(Some(5000), Some(20)), (1000, 20));
    assert_eq!(audit_window(Some(10), None), (10, 0));
}

use veronex::http::dashboard::{cluster_rows, job_turn_detail, queue_depth, JobTurn};

#[test]
fn queue_depth_total() {
    let q = queue_depth(2, 3, 4);
    assert_eq!((q.api_paid, q.api, q.test, q.total), (2, 3, 4, 9));
}

#[test]
fn cluster_rows_sorted_and_capped() {
    let snap = vec![
        (s("qwen"), 5000u64, 100u64, 1u32, 4u32, 2u32),
        (s("llama"), u64::MAX, 7u64, 0u32, 8u32, 1u32),
        (s("qwen"), 1u64, 1u64, 0u32, 1u32, 1u32),
    ];
    let rows = cluster_rows(&snap);
    let names: Vec<&str> = rows.iter().map(|r| r.model_name.as_str()).collect();
    assert_eq!(names, vec!["llama", "qwen", "qwen"]);
    assert_eq!(rows[0].weight_mb, i32::MAX);
    assert_eq!(rows[1].weight_mb, 5000);
    assert_eq!(rows[2].weight_mb, 1);
}

fn turn(job_id: u128, prompt: &str, result: Option<&str>) -> JobTurn {
    JobTurn {
        job_id,
        prompt: s(prompt),
        result: result.map(s),
        tool_calls: None,
        messages: Some(Json::Array(vec![Json::String(s(prompt))])),
    }
}

#[test]
fn job_turn_detail_picks_first_turn_of_job() {
    let turns = vec![turn(1, "a", Some("ra")), turn(2, "b", None), turn(2, "c", Some("rc"))];
    let d = job_turn_detail(Some(turns), 2, Some(s("preview")));
    assert_eq!(d.prompt, "b");
    assert_eq!(d.result_text, None);
    assert_eq!(d.message_count, Some(3));
    match d.messages_json {
        Some(Json::Array(items)) => assert!(matches!(&items[0], Json::String(t) if t == "b")),
        other => panic!("unexpected {:?}", other),
    }
}

#[test]
fn job_turn_detail_falls_back_to_preview() {
    let d = job_turn_detail(Some(vec![turn(1, "a", Some("ra"))]), 9, Some(s("preview")));
    assert_eq!(d.prompt, "preview");
    assert_eq!(d.message_count, Some(1));
    assert!(d.result_text.is_none() && d.messages_json.is_none());
    let none = job_turn_detail(None, 9, None);
    assert_eq!(none.prompt, "");
    assert_eq!(none.message_count, None);
}
