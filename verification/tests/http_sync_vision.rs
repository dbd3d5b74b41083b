use veronex::domain::constants::conv_s3_cache_key;
use veronex::domain::entities::LlmProvider;
use veronex::domain::enums::{LlmProviderStatus, ProviderType};
use veronex::domain::errors::DomainError;
use veronex::domain::value_objects::StreamToken;
use veronex::http::embeddings::{
    check_embedding_request, embed_endpoint, embed_prompt_tokens, embed_request_body, pick_embedding_provider,
    EmbeddingRequest,
};
use veronex::http::error::AppError;
use veronex::http::gates::{
    annotate_last_user_message, new_conversation_id, ollama_chat_images, to_public_id, decode_conversation_id,
};
use veronex::http::model_sync::{
    ollama_sync_targets, ollama_tags_url, sync_progress_entry, tag_model_names, SyncTarget,
};
use veronex::http::openai::EmbeddingInput;
use veronex::http::paging::{page_window, search_term, PageWindow};
use veronex::http::sse::{OllamaCollected, OpenAiStream, StreamEvent};
use veronex::http::validation::validate_slug;
use veronex::http::vision::{
    check_image_count, description_of, join_descriptions, needs_compression, needs_vision_fallback,
    ollama_urls, vision_endpoint, vision_model_choice, vision_prompt, vision_request_body, VisionScan, VisionStep,
};
use veronex::json::{as_str, as_u64, get_field, set_field, Json};
use veronex::text::trim_trailing_slashes;

fn s(x: &str) -> String {
    x.to_string()
}

fn jstr(x: &str) -> Json {
    Json::String(s(x))
}

fn obj(entries: Vec<(&str, Json)>) -> Json {
    Json::Object(entries.into_iter().map(|(k, v)| (s(k), v)).collect())
}

fn provider(name: &str, kind: ProviderType, url: &str) -> LlmProvider {
    LlmProvider {
        id: 7,
        name: s(name),
        provider_type: kind,
        url: s(url),
        api_key_encrypted: None,
        is_active: true,
        total_vram_mb: 24576,
        gpu_index: None,
        server_id: None,
        is_free_tier: false,
        num_parallel: 4,
        status: LlmProviderStatus::Online,
        registered_at: 0,
    }
}

fn field_str<'a>(j: &'a Json, key: &str) -> Option<&'a str> {
    get_field(j, key).and_then(as_str)
}

// ── Slugs ────────────────────────────────────────────────────────────────────

#[test]
fn valid_slugs() {
    assert!(validate_slug("abc").is_ok());
    assert!(validate_slug("my_server").is_ok());
    assert!(validate_slug("a1b2c3").is_ok());
    assert!(validate_slug("a").is_ok());
    assert!(validate_slug(&"a".repeat(64)).is_ok());
}

#[test]
fn slug_must_start_with_lowercase() {
    assert!(validate_slug("1abc").is_err());
    assert!(validate_slug("_abc").is_err());
    assert!(validate_slug("Abc").is_err());
}

#[test]
fn slug_disallows_uppercase_and_special_chars() {
    assert!(validate_slug("myServer").is_err());
    assert!(validate_slug("my-server").is_err());
    assert!(validate_slug("my server").is_err());
    assert!(validate_slug("my.server").is_err());
}

#[test]
fn slug_empty_rejected() {
    assert!(validate_slug("").is_err());
}

#[test]
fn slug_max_length_64() {
    assert!(validate_slug(&"a".repeat(64)).is_ok());
    assert!(validate_slug(&"a".repeat(65)).is_err());
}

#[test]
fn conv_cache_key_format() {
    let id: u128 = 0;
    let key = conv_s3_cache_key(id);
    assert!(key.starts_with("conv_s3:"));
    assert!(key.contains("00000000-0000-0000-0000-000000000000"));
}

// ── Entities ─────────────────────────────────────────────────────────────────

#[test]
fn provider_kind_predicates() {
    let o = provider("a", ProviderType::Ollama, "http://h");
    let g = provider("b", ProviderType::Gemini, "");
    assert!(o.is_ollama() && !o.is_gemini());
    assert!(g.is_gemini() && !g.is_ollama());
}

// ── Model sync ───────────────────────────────────────────────────────────────

#[test]
fn tags_url_drops_trailing_slashes() {
    assert_eq!(ollama_tags_url("http://h:11434"), "http://h:11434/api/tags");
    assert_eq!(ollama_tags_url("http://h:11434//"), "http://h:11434/api/tags");
    assert_eq!(trim_trailing_slashes("///"), "");
    assert_eq!(trim_trailing_slashes("a/b"), "a/b");
}

#[test]
fn sync_targets_keep_ollama_in_order() {
    let ps = vec![
        provider("one", ProviderType::Ollama, "http://a/"),
        provider("gem", ProviderType::Gemini, ""),
        provider("two", ProviderType::Ollama, "http://b"),
    ];
    let ts = ollama_sync_targets(&ps).unwrap();
    assert_eq!(ts.len(), 2);
    assert_eq!(ts[0].name, "one");
    assert_eq!(ts[0].tags_url, "http://a/api/tags");
    assert_eq!(ts[1].name, "two");
    assert_eq!(ts[1].tags_url, "http://b/api/tags");
}

#[test]
fn sync_without_ollama_providers_is_refused() {
    let ps = vec![provider("gem", ProviderType::Gemini, "")];
    match ollama_sync_targets(&ps) {
        Err(AppError::BadRequest(m)) => assert_eq!(m, "no active Ollama providers registered"),
        other => panic!("unexpected {:?}", other),
    }
    assert!(ollama_sync_targets(&Vec::new()).is_err());
}

#[test]
fn tag_names_skip_entries_without_a_name() {
    let reply = obj(vec![(
        "models",
        Json::Array(vec![
            obj(vec![("name", jstr("llama3:8b"))]),
            obj(vec![("size", Json::Number(s("5")))]),
            obj(vec![("name", jstr("qwen3:4b"))]),
        ]),
    )]);
    assert_eq!(tag_model_names(&reply), vec![s("llama3:8b"), s("qwen3:4b")]);
    assert!(tag_model_names(&obj(vec![("models", Json::Null)])).is_empty());
    assert!(tag_model_names(&Json::Null).is_empty());
}

#[test]
fn progress_entry_for_success_and_failure() {
    let t = SyncTarget { provider_id: 1, name: s("gpu-1"), tags_url: s("http://a/api/tags") };
    let ok = sync_progress_entry(&t, Some(vec![s("m1"), s("m2")]));
    assert_eq!(field_str(&ok, "provider_id"), Some("00000000-0000-0000-0000-000000000001"));
    assert_eq!(field_str(&ok, "name"), Some("gpu-1"));
    match get_field(&ok, "models") {
        Some(Json::Array(items)) => assert_eq!(items.len(), 2),
        other => panic!("unexpected {:?}", other),
    }
    assert!(matches!(get_field(&ok, "error"), Some(Json::Null)));
    let failed = sync_progress_entry(&t, None);
    assert_eq!(field_str(&failed, "error"), Some("sync failed"));
    match get_field(&failed, "models") {
        Some(Json::Array(items)) => assert!(items.is_empty()),
        other => panic!("unexpected {:?}", other),
    }
}

// ── Paging ───────────────────────────────────────────────────────────────────

#[test]
fn page_window_defaults_and_clamps() {
    assert_eq!(page_window(None, None, 20, 200), PageWindow { page: 1, limit: 20, offset: 0 });
    assert_eq!(page_window(Some(3), Some(50), 20, 200), PageWindow { page: 3, limit: 50, offset: 100 });
    assert_eq!(page_window(Some(0), Some(0), 20, 200), PageWindow { page: 1, limit: 1, offset: 0 });
    assert_eq!(page_window(Some(-5), Some(5000), 100, 1000), PageWindow { page: 1, limit: 1000, offset: 0 });
    assert_eq!(
        page_window(Some(99_999), Some(10), 20, 200),
        PageWindow { page: 10_000, limit: 10, offset: 99_990 }
    );
}

#[test]
fn search_term_is_trimmed() {
    assert_eq!(search_term(Some("  llama ")), "llama");
    assert_eq!(search_term(None), "");
}

// ── Images and the vision fallback ───────────────────────────────────────────

#[test]
fn image_count_limits() {
    assert_eq!(check_image_count(0, 0), None);
    assert_eq!(check_image_count(1, 0), Some(s("image input is disabled")));
    assert_eq!(check_image_count(5, 4), Some(s("too many images (max 4)")));
    assert_eq!(check_image_count(4, 4), None);
    assert!(needs_compression(101, 100));
    assert!(!needs_compression(100, 100));
}

#[test]
fn vision_fallback_only_for_non_vision_models_with_images() {
    assert!(needs_vision_fallback("llama3:8b", 1));
    assert!(!needs_vision_fallback("llama3:8b", 0));
    assert!(!needs_vision_fallback("qwen3-VL:8b", 2));
    assert!(!needs_vision_fallback("llava:7b", 1));
}

#[test]
fn vision_model_and_prompt_choice() {
    assert_eq!(vision_model_choice(Some("m1"), Some("m2")), "m1");
    assert_eq!(vision_model_choice(None, Some("m2")), "m2");
    assert_eq!(vision_model_choice(None, None), "qwen3-vl:8b");
    assert_eq!(vision_prompt("   "), "Describe this image in detail.");
    assert_eq!(vision_prompt("what is this?"), "what is this?");
}

#[test]
fn vision_request_shape() {
    assert_eq!(vision_endpoint("http://h/"), "http://h/api/generate");
    let body = vision_request_body("qwen3-vl:8b", "describe", "aGVsbG8=");
    assert_eq!(field_str(&body, "model"), Some("qwen3-vl:8b"));
    assert_eq!(field_str(&body, "prompt"), Some("describe"));
    assert!(matches!(get_field(&body, "stream"), Some(Json::Bool(false))));
    match get_field(&body, "images") {
        Some(Json::Array(items)) => assert_eq!(items.len(), 1),
        other => panic!("unexpected {:?}", other),
    }
    let ps = vec![
        provider("a", ProviderType::Gemini, "g"),
        provider("b", ProviderType::Ollama, "http://o1"),
        provider("c", ProviderType::Ollama, "http://o2"),
    ];
    assert_eq!(ollama_urls(&ps), vec![s("http://o1"), s("http://o2")]);
}

#[test]
fn vision_scan_takes_first_description_per_image() {
    let mut scan = VisionScan::new(2, 2);
    assert_eq!(scan.next_step(), VisionStep::Ask { image: 0, provider: 0 });
    // First provider fails, second answers.
    scan.on_reply(None);
    assert_eq!(scan.next_step(), VisionStep::Ask { image: 0, provider: 1 });
    let reply = obj(vec![("response", jstr("  a cat  "))]);
    scan.on_reply(Some(&reply));
    assert_eq!(scan.next_step(), VisionStep::Ask { image: 1, provider: 0 });
    // Both providers give nothing for the second image.
    let blank = obj(vec![("response", jstr("   "))]);
    scan.on_reply(Some(&blank));
    scan.on_reply(None);
    assert_eq!(scan.next_step(), VisionStep::Finished);
    let a = scan.finish(s("qwen3-vl:8b"), 2).unwrap();
    assert_eq!(a.analysis, "a cat");
    assert_eq!(a.image_count, 2);
    assert_eq!(a.analysis_tokens, 1);
    assert_eq!(a.vision_model, "qwen3-vl:8b");
}

#[test]
fn vision_scan_without_descriptions_gives_none() {
    let mut scan = VisionScan::new(1, 1);
    scan.on_reply(None);
    assert_eq!(scan.next_step(), VisionStep::Finished);
    assert!(scan.finish(s("m"), 1).is_none());
    let empty = VisionScan::new(3, 0);
    assert_eq!(empty.next_step(), VisionStep::Finished);
}

#[test]
fn descriptions_join_with_blank_line() {
    assert_eq!(join_descriptions(&vec![s("one"), s("two"), s("three")]), "one\n\ntwo\n\nthree");
    assert_eq!(join_descriptions(&vec![]), "");
    assert_eq!(description_of(Some(&obj(vec![("response", Json::Number(s("1")))]))), "");
}

// ── Ollama chat images and annotation ────────────────────────────────────────

#[test]
fn chat_images_come_from_user_messages_only() {
    let messages = vec![
        obj(vec![("role", jstr("system")), ("images", Json::Array(vec![jstr("sys")]))]),
        obj(vec![("role", jstr("user")), ("images", Json::Array(vec![jstr("i1"), Json::Null, jstr("i2")]))]),
        obj(vec![("role", jstr("assistant")), ("content", jstr("ok"))]),
        obj(vec![("role", jstr("user")), ("images", Json::Array(vec![jstr("i3")]))]),
    ];
    assert_eq!(ollama_chat_images(&messages), Some(vec![s("i1"), s("i2"), s("i3")]));
    let none = vec![obj(vec![("role", jstr("user")), ("content", jstr("hi"))])];
    assert_eq!(ollama_chat_images(&none), None);
}

#[test]
fn annotation_goes_to_last_user_message() {
    let mut messages = vec![
        obj(vec![("role", jstr("user")), ("content", jstr("first"))]),
        obj(vec![("role", jstr("user")), ("content", jstr("what is it?")), ("images", Json::Array(vec![]))]),
        obj(vec![("role", jstr("assistant")), ("content", jstr("later"))]),
    ];
    annotate_last_user_message(&mut messages, "a dog");
    assert_eq!(field_str(&messages[1], "content"), Some("[Image Analysis]\na dog\n\nwhat is it?"));
    assert_eq!(field_str(&messages[0], "content"), Some("first"));
    assert_eq!(field_str(&messages[2], "content"), Some("later"));
    assert!(get_field(&messages[1], "images").is_some());

    let mut no_content = vec![obj(vec![("role", jstr("user"))])];
    annotate_last_user_message(&mut no_content, "x");
    assert_eq!(field_str(&no_content[0], "content"), Some("[Image Analysis]\nx\n\n"));

    let mut no_user = vec![obj(vec![("role", jstr("system")), ("content", jstr("s"))])];
    annotate_last_user_message(&mut no_user, "x");
    assert_eq!(field_str(&no_user[0], "content"), Some("s"));
}

#[test]
fn set_field_replaces_or_appends() {
    let j = obj(vec![("a", jstr("1")), ("b", jstr("2"))]);
    let j = set_field(j, "a", jstr("9"));
    assert_eq!(field_str(&j, "a"), Some("9"));
    assert_eq!(field_str(&j, "b"), Some("2"));
    let j = set_field(j, "c", Json::Null);
    assert!(matches!(get_field(&j, "c"), Some(Json::Null)));
    match &j {
        Json::Object(es) => assert_eq!(es.len(), 3),
        other => panic!("unexpected {:?}", other),
    }
}

// ── Conversation ids ─────────────────────────────────────────────────────────

#[test]
fn public_conversation_id_roundtrip() {
    let id = new_conversation_id();
    let text = to_public_id(id);
    assert!(text.starts_with("conv_"));
    assert_eq!(decode_conversation_id(&text), Some(id));
    assert_ne!(new_conversation_id(), id);
    assert_eq!((id >> 76) & 0xf, 7);
    assert_eq!((id >> 62) & 0x3, 2);
}

// ── Embeddings ───────────────────────────────────────────────────────────────

#[test]
fn embedding_request_admission() {
    let req = EmbeddingRequest {
        model: s("nomic-embed-text"),
        input: EmbeddingInput::Single(s("hello")),
        encoding_format: None,
        user: None,
    };
    let (model, inputs) = check_embedding_request(req).unwrap();
    assert_eq!(model, "nomic-embed-text");
    assert_eq!(inputs, vec![s("hello")]);

    let bad_model = EmbeddingRequest { model: s(""), input: EmbeddingInput::Multiple(vec![]), encoding_format: None, user: None };
    match check_embedding_request(bad_model) {
        Err(AppError::BadRequest(m)) => assert_eq!(m, "model name invalid or too long"),
        other => panic!("unexpected {:?}", other),
    }

    let big = EmbeddingRequest {
        model: s("m"),
        input: EmbeddingInput::Multiple(vec!["x".repeat(600_000), "y".repeat(600_000)]),
        encoding_format: None,
        user: None,
    };
    match check_embedding_request(big) {
        Err(AppError::BadRequest(m)) => assert_eq!(m, "content exceeds maximum length of 1MB"),
        other => panic!("unexpected {:?}", other),
    }
}

#[test]
fn embedding_provider_and_call() {
    let ps = vec![provider("g", ProviderType::Gemini, ""), provider("o", ProviderType::Ollama, "http://o")];
    assert_eq!(pick_embedding_provider(&ps).unwrap(), 1);
    match pick_embedding_provider(&vec![provider("g", ProviderType::Gemini, "")]) {
        Err(AppError::ServiceUnavailable(m)) => assert_eq!(m, "no Ollama provider available for embeddings"),
        other => panic!("unexpected {:?}", other),
    }
    assert_eq!(embed_endpoint("http://o"), "http://o/api/embed");
    let body = embed_request_body("m", &vec![s("a"), s("b")]);
    match get_field(&body, "input") {
        Some(Json::Array(items)) => assert_eq!(items.len(), 2),
        other => panic!("unexpected {:?}", other),
    }
    assert_eq!(embed_prompt_tokens(&obj(vec![("prompt_eval_count", Json::Number(s("12")))])), 12);
    assert_eq!(embed_prompt_tokens(&obj(vec![("prompt_eval_count", Json::Number(s("1.5")))])), 0);
    assert_eq!(embed_prompt_tokens(&obj(vec![])), 0);
}

#[test]
fn as_u64_reads_plain_integers_only() {
    assert_eq!(as_u64(Some(&Json::Number(s("18446744073709551615")))), Some(u64::MAX));
    assert_eq!(as_u64(Some(&Json::Number(s("18446744073709551616")))), None);
    assert_eq!(as_u64(Some(&Json::Number(s("-1")))), None);
    assert_eq!(as_u64(Some(&jstr("5"))), None);
    assert_eq!(as_u64(None), None);
}

// ── Streams ──────────────────────────────────────────────────────────────────

fn stream(include_usage: bool) -> OpenAiStream {
    OpenAiStream { chunk_id: s("chatcmpl-1"), created: 42, model: s("m"), include_usage, saw_tool_calls: false }
}

#[test]
fn openai_stream_maps_tokens_to_chunks() {
    let mut st = stream(true);
    let ev = st.on_item(Ok(StreamToken::text(s("Hel"))));
    assert_eq!(ev.len(), 1);
    match &ev[0] {
        StreamEvent::Chunk(c) => {
            assert_eq!(c.id, "chatcmpl-1");
            assert_eq!(c.choices[0].delta.content.as_deref(), Some("Hel"));
        },
        other => panic!("unexpected {:?}", other),
    }
    assert!(st.on_item(Ok(StreamToken::text(String::new()))).is_empty());
    let mut fin = StreamToken::done();
    fin.prompt_tokens = Some(3);
    fin.completion_tokens = Some(4);
    let ev = st.on_item(Ok(fin));
    assert_eq!(ev.len(), 2);
    match &ev[0] {
        StreamEvent::Chunk(c) => assert_eq!(c.choices[0].finish_reason.as_deref(), Some("stop")),
        other => panic!("unexpected {:?}", other),
    }
    match &ev[1] {
        StreamEvent::Chunk(u) => {
            let usage = u.usage.as_ref().unwrap();
            assert_eq!((usage.prompt_tokens, usage.completion_tokens, usage.total_tokens), (3, 4, 7));
            assert!(u.choices.is_empty());
        },
        other => panic!("unexpected {:?}", other),
    }
}

#[test]
fn openai_stream_tool_calls_then_finish() {
    let mut st = stream(false);
    let mut tok = StreamToken::text(String::new());
    tok.tool_calls = Some(Json::Array(vec![obj(vec![(
        "function",
        obj(vec![("name", jstr("get_weather")), ("arguments", obj(vec![("city", jstr("Seoul"))]))]),
    )])]));
    let ev = st.on_item(Ok(tok));
    assert_eq!(ev.len(), 1);
    assert!(st.saw_tool_calls);
    match &ev[0] {
        StreamEvent::Chunk(c) => assert_eq!(c.choices[0].delta.tool_calls.as_ref().unwrap().len(), 1),
        other => panic!("unexpected {:?}", other),
    }
    let ev = st.on_item(Ok(StreamToken::done()));
    assert_eq!(ev.len(), 1);
    match &ev[0] {
        StreamEvent::Chunk(c) => assert_eq!(c.choices[0].finish_reason.as_deref(), Some("tool_calls")),
        other => panic!("unexpected {:?}", other),
    }
}

#[test]
fn openai_stream_error_is_categorised() {
    let mut st = stream(false);
    let ev = st.on_item(Err(DomainError::Internal(s("db password leaked"))));
    assert_eq!(ev.len(), 1);
    match &ev[0] {
        StreamEvent::Error(m) => assert!(!m.contains("password")),
        other => panic!("unexpected {:?}", other),
    }
}

#[test]
fn ollama_collected_keeps_text_calls_and_counts() {
    let mut c = OllamaCollected::new();
    c.absorb(StreamToken::text(s("Hello ")));
    c.absorb(StreamToken::text(s("world")));
    let mut tok = StreamToken::text(String::new());
    tok.tool_calls = Some(Json::Array(vec![]));
    c.absorb(tok);
    let mut fin = StreamToken::done();
    fin.prompt_tokens = Some(5);
    c.absorb(fin);
    assert_eq!(c.content, "Hello world");
    assert!(c.tool_calls.is_some());
    assert_eq!((c.prompt_tokens, c.eval_tokens), (5, 0));
}
