use veronex::domain::errors::DomainError;
use veronex::domain::value_objects::StreamToken;
use veronex::http::error::AppError;
use veronex::http::gemini_reply::{
    gemini_error_body, gemini_listing_names, gemini_model_json, gemini_model_list, gemini_model_lookup,
    gemini_stream_event, openai_model_owner, strip_models_prefix, GeminiCollected,
};
use veronex::http::models::openai_model_list;
use veronex::json::{as_str, get_field, Json};
use veronex::text::sort_texts;

fn s(x: &str) -> String {
    x.to_string()
}

fn strings(xs: &[&str]) -> Vec<String> {
    xs.iter().map(|x| x.to_string()).collect()
}

fn at<'a>(j: &'a Json, path: &[&str]) -> Option<&'a Json> {
    let mut cur = j;
    for k in path {
        cur = get_field(cur, k)?;
    }
    Some(cur)
}

fn first_candidate(j: &Json) -> &Json {
    match get_field(j, "candidates") {
        Some(Json::Array(cs)) => &cs[0],
        other => panic!("unexpected {:?}", other),
    }
}

#[test]
fn stream_event_for_text_token() {
    let ev = gemini_stream_event(Ok(StreamToken::text(s("Hi"))));
    let c = first_candidate(&ev);
    match at(c, &["content", "parts"]) {
        Some(Json::Array(ps)) => assert_eq!(get_field(&ps[0], "text").and_then(as_str), Some("Hi")),
        other => panic!("unexpected {:?}", other),
    }
    assert_eq!(at(c, &["content", "role"]).and_then(as_str), Some("model"));
    assert!(get_field(c, "finishReason").is_none());
    assert!(get_field(&ev, "usageMetadata").is_none());
}

#[test]
fn stream_event_for_final_token() {
    let mut t = StreamToken::done();
    t.finish_reason = Some(s("length"));
    t.prompt_tokens = Some(7);
    let ev = gemini_stream_event(Ok(t));
    let c = first_candidate(&ev);
    assert_eq!(get_field(c, "finishReason").and_then(as_str), Some("MAX_TOKENS"));
    assert!(matches!(at(&ev, &["usageMetadata", "promptTokenCount"]), Some(Json::Number(n)) if n == "7"));
    assert!(matches!(at(&ev, &["usageMetadata", "candidatesTokenCount"]), Some(Json::Number(n)) if n == "0"));
}

#[test]
fn stream_event_for_error_hides_detail() {
    let ev = gemini_stream_event(Err(DomainError::Internal(s("sqlx pool timed out"))));
    assert_eq!(at(&ev, &["error", "message"]).and_then(as_str), Some("internal processing error"));
}

#[test]
fn collected_reply_holds_whole_text() {
    let mut c = GeminiCollected::new();
    c.absorb(StreamToken::text(s("Hello ")));
    c.absorb(StreamToken::text(s("there")));
    let mut fin = StreamToken::done();
    fin.finish_reason = Some(s("cancelled"));
    fin.completion_tokens = Some(2);
    c.absorb(fin);
    assert!(c.finished);
    let r = c.into_reply();
    let cand = first_candidate(&r);
    assert_eq!(get_field(cand, "finishReason").and_then(as_str), Some("CANCELLED"));
    match at(cand, &["content", "parts"]) {
        Some(Json::Array(ps)) => assert_eq!(get_field(&ps[0], "text").and_then(as_str), Some("Hello there")),
        other => panic!("unexpected {:?}", other),
    }
}

#[test]
fn error_body_shape() {
    let e = gemini_error_body(500, "INTERNAL", "failed to submit inference job");
    assert!(matches!(at(&e, &["error", "code"]), Some(Json::Number(n)) if n == "500"));
    assert_eq!(at(&e, &["error", "status"]).and_then(as_str), Some("INTERNAL"));
    assert_eq!(at(&e, &["error", "message"]).and_then(as_str), Some("failed to submit inference job"));
}

#[test]
fn model_description_and_lookup() {
    let m = gemini_model_json("qwen3:8b");
    assert_eq!(get_field(&m, "name").and_then(as_str), Some("models/qwen3:8b"));
    assert_eq!(get_field(&m, "baseModelId").and_then(as_str), Some("qwen3:8b"));
    assert!(matches!(get_field(&m, "inputTokenLimit"), Some(Json::Number(n)) if n == "128000"));
    assert_eq!(strip_models_prefix("models/llama3"), "llama3");
    assert_eq!(strip_models_prefix("llama3"), "llama3");
    let synced = strings(&["llama3", "qwen3:8b"]);
    assert!(gemini_model_lookup("models/llama3", &synced).is_ok());
    match gemini_model_lookup("models/nope", &synced) {
        Err(e) => assert_eq!(at(&e, &["error", "message"]).and_then(as_str), Some("model not found: nope")),
        Ok(j) => panic!("unexpected {:?}", j),
    }
}

#[test]
fn listing_names_dedup_sorted_or_fallback() {
    let enabled = vec![strings(&["qwen", "llama"]), strings(&["llama", "mistral"])];
    assert_eq!(gemini_listing_names(&enabled, &strings(&["zzz"])), strings(&["llama", "mistral", "qwen"]));
    let none: Vec<Vec<String>> = vec![vec![], vec![]];
    assert_eq!(gemini_listing_names(&none, &strings(&["b", "a", "b"])), strings(&["a", "b", "b"]));
    match gemini_model_list(&strings(&["a"])) {
        Json::Object(es) => assert_eq!(es[0].0, "models"),
        other => panic!("unexpected {:?}", other),
    }
}

#[test]
fn sort_keeps_duplicates() {
    assert_eq!(sort_texts(&strings(&["pear", "apple", "fig", "apple"])), strings(&["apple", "apple", "fig", "pear"]));
    assert!(sort_texts(&vec![]).is_empty());
}

#[test]
fn openai_models_list_and_owner() {
    let ollama = strings(&["llama3"]);
    let gemini = strings(&["gemini-2.5-flash"]);
    let list = openai_model_list(Some(&ollama), Some(&gemini), 1_700_000_000);
    assert_eq!(list.len(), 2);
    assert_eq!((list[0].id.as_str(), list[0].owned_by), ("llama3", "ollama"));
    assert_eq!((list[1].id.as_str(), list[1].owned_by), ("gemini-2.5-flash", "google"));
    assert_eq!(list[1].object, "model");
    assert_eq!(openai_model_list(None, Some(&gemini), 0).len(), 1);
    assert_eq!(openai_model_owner("llama3", &ollama, &gemini).unwrap(), "ollama");
    assert_eq!(openai_model_owner("gemini-2.5-flash", &ollama, &gemini).unwrap(), "google");
    match openai_model_owner("gpt-4", &ollama, &gemini) {
        Err(AppError::NotFound(m)) => assert_eq!(m, "The model 'gpt-4' does not exist"),
        other => panic!("unexpected {:?}", other),
    }
}
