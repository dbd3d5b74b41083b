use std::time::Duration;

use veronex::domain::enums::ProviderType;
use veronex::http::auth::{is_excluded_path, EXCLUDED_PATHS};
use veronex::http::constants::{INFERENCE_ROUTER_TIMEOUT_SECS, SSE_TIMEOUT_SECS};
use veronex::http::dto::default_limit;
use veronex::http::openai::{ContentPart, ImageUrl, MessageContent};
use veronex::http::validation::{parse_provider_str, parse_provider_type, to_gemini_finish_reason, validate_hours};

const SSE_TIMEOUT: Duration = Duration::from_secs(SSE_TIMEOUT_SECS);
const INFERENCE_ROUTER_TIMEOUT: Duration = Duration::from_secs(INFERENCE_ROUTER_TIMEOUT_SECS);
const CILIUM_GATEWAY_TIMEOUT: Duration = Duration::from_secs(1800);
const BRIDGE_ROUND_TOTAL_TIMEOUT: Duration = Duration::from_secs(1500);

#[test]
fn sse_timeout_under_cilium_gateway() {
    assert!(SSE_TIMEOUT < CILIUM_GATEWAY_TIMEOUT);
}

#[test]
fn sse_timeout_covers_one_full_bridge_round() {
    assert!(SSE_TIMEOUT >= BRIDGE_ROUND_TOTAL_TIMEOUT);
}

#[test]
fn inference_router_timeout_under_cilium_gateway() {
    assert!(INFERENCE_ROUTER_TIMEOUT < CILIUM_GATEWAY_TIMEOUT);
}

#[test]
fn inference_router_timeout_above_sse_timeout() {
    assert!(INFERENCE_ROUTER_TIMEOUT > SSE_TIMEOUT);
}

#[test]
fn default_limit_is_50() {
    assert_eq!(default_limit(), 50);
}

#[test]
fn to_gemini_finish_reason_mappings() {
    assert_eq!(to_gemini_finish_reason(Some("length")), "MAX_TOKENS");
    assert_eq!(to_gemini_finish_reason(Some("cancelled")), "CANCELLED");
    assert_eq!(to_gemini_finish_reason(Some("error")), "OTHER");
    assert_eq!(to_gemini_finish_reason(Some("stop")), "STOP");
    assert_eq!(to_gemini_finish_reason(None), "STOP");
    assert_eq!(to_gemini_finish_reason(Some("unknown_x")), "STOP");
}

#[test]
fn excluded_paths_contains_health() {
    assert!(EXCLUDED_PATHS.contains(&"/health"));
    assert!(EXCLUDED_PATHS.contains(&"/readyz"));
}

#[test]
fn excluded_path_matching() {
    let path = "/health";
    assert!(EXCLUDED_PATHS.iter().any(|p| path == *p));
    assert!(is_excluded_path(path));

    let path = "/readyz";
    assert!(EXCLUDED_PATHS.iter().any(|p| path == *p));
    assert!(is_excluded_path(path));

    let path = "/v1/inference";
    assert!(!EXCLUDED_PATHS.iter().any(|p| path == *p));
    assert!(!is_excluded_path(path));

    let path = "/v1/keys";
    assert!(!EXCLUDED_PATHS.iter().any(|p| path == *p));
    assert!(!is_excluded_path(path));

    let path = "/healthXYZ";
    assert!(!EXCLUDED_PATHS.iter().any(|p| path == *p));
    assert!(!is_excluded_path(path));
}

fn make_text_part(text: &str) -> ContentPart {
    ContentPart { part_type: "text".to_string(), text: Some(text.to_string()), image_url: None }
}

fn make_image_part(url: &str) -> ContentPart {
    ContentPart {
        part_type: "image_url".to_string(),
        text: None,
        image_url: Some(ImageUrl { url: url.to_string() }),
    }
}

#[test]
fn extract_images_from_data_url() {
    let content = MessageContent::Parts(vec![make_image_part("data:image/jpeg;base64,ABC123")]);
    assert_eq!(content.extract_images(), vec!["ABC123"]);
}

#[test]
fn extract_images_strips_prefix() {
    let content = MessageContent::Parts(vec![make_image_part("data:image/png;base64,PNGDATA==")]);
    assert_eq!(content.extract_images(), vec!["PNGDATA=="]);
}

#[test]
fn extract_images_empty_for_text_only() {
    let content = MessageContent::Parts(vec![make_text_part("describe this image")]);
    assert!(content.extract_images().is_empty());
}

#[test]
fn extract_images_from_string_content() {
    let content = MessageContent::Text("hello".to_string());
    assert!(content.extract_images().is_empty());
}

#[test]
fn extract_images_raw_base64_kept_and_bad_data_uri_dropped() {
    let content = MessageContent::Parts(vec![
        make_image_part("RAWB64"),
        make_image_part("data:image/png,notbase64"),
        make_text_part("ignored"),
    ]);
    assert_eq!(content.extract_images(), vec!["RAWB64"]);
}

#[test]
fn into_string_from_text() {
    let content = MessageContent::Text("hello world".to_string());
    assert_eq!(content.into_string(), "hello world");
}

#[test]
fn into_string_from_parts_joins_text() {
    let content = MessageContent::Parts(vec![make_text_part("line 1"), make_text_part("line 2")]);
    assert_eq!(content.into_string(), "line 1\nline 2");
}

#[test]
fn into_string_from_parts_skips_non_text() {
    let content =
        MessageContent::Parts(vec![make_text_part("hello"), make_image_part("data:image/png;base64,ABC")]);
    assert_eq!(content.into_string(), "hello");
}

#[test]
fn parse_provider_str_gemini_free() {
    let (pt, tier) = parse_provider_str("gemini-free");
    assert_eq!(pt, ProviderType::Gemini);
    assert_eq!(tier.as_deref(), Some("free"));
}

#[test]
fn parse_provider_str_gemini() {
    let (pt, tier) = parse_provider_str("gemini");
    assert_eq!(pt, ProviderType::Gemini);
    assert!(tier.is_none());
}

#[test]
fn parse_provider_str_unknown_defaults_ollama() {
    let (pt, tier) = parse_provider_str("something-else");
    assert_eq!(pt, ProviderType::Ollama);
    assert!(tier.is_none());
}

#[test]
fn parse_provider_type_examples() {
    assert_eq!(parse_provider_type("Ollama"), Some(ProviderType::Ollama));
    assert_eq!(parse_provider_type("GEMINI"), Some(ProviderType::Gemini));
    assert_eq!(parse_provider_type("Whisper"), Some(ProviderType::Whisper));
    assert_eq!(parse_provider_type("unknown"), None);
}

#[test]
fn validate_hours_rejects_zero() {
    assert!(validate_hours(0).is_err());
}

#[test]
fn validate_hours_rejects_over_8760() {
    assert!(validate_hours(8761).is_err());
}

#[test]
fn validate_hours_accepts_boundaries() {
    assert!(validate_hours(1).is_ok());
    assert!(validate_hours(8760).is_ok());
}
