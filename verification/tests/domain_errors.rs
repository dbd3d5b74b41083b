use veronex::domain::errors::{DomainError, LifecycleError};

#[test]
fn load_timeout_display_contains_durations() {
    let e = LifecycleError::LoadTimeout { elapsed_ms: 600_000, max_ms: 600_000 };
    let s = e.to_string();
    assert!(s.contains("600000ms"), "msg = {s}");
    assert!(s.contains("timed out"), "msg = {s}");
}

#[test]
fn stalled_display_contains_progress_window() {
    let e = LifecycleError::Stalled { last_progress_ms: 60_000 };
    let s = e.to_string();
    assert!(s.contains("60000ms"), "msg = {s}");
    assert!(s.contains("stalled"), "msg = {s}");
}

#[test]
fn provider_error_passes_through_inner_message() {
    let e = LifecycleError::ProviderError("ollama 502".into());
    assert_eq!(e.to_string(), "provider error during lifecycle: ollama 502");
}

#[test]
fn circuit_open_has_actionable_message() {
    let e = LifecycleError::CircuitOpen;
    assert_eq!(e.to_string(), "provider circuit breaker open");
}

#[test]
fn resources_exhausted_shows_required_vs_available() {
    let e = LifecycleError::ResourcesExhausted { available_vram_mb: 1_024, required_mb: 60_000 };
    let s = e.to_string();
    assert!(s.contains("1024MB"), "msg = {s}");
    assert!(s.contains("60000MB"), "msg = {s}");
}

#[test]
fn lifecycle_messages_are_exact() {
    assert_eq!(
        LifecycleError::LoadTimeout { elapsed_ms: 0, max_ms: 7 }.to_string(),
        "model load timed out after 0ms (max 7ms)"
    );
    assert_eq!(
        LifecycleError::Stalled { last_progress_ms: 9 }.to_string(),
        "model load stalled — no progress for 9ms"
    );
    assert_eq!(
        LifecycleError::ResourcesExhausted { available_vram_mb: 10, required_mb: 100 }.to_string(),
        "VRAM exhausted: available 10MB, required 100MB"
    );
}

#[test]
fn domain_error_messages() {
    assert_eq!(DomainError::Validation("x".into()).to_string(), "validation error: x");
    assert_eq!(DomainError::InvalidKey.to_string(), "invalid API key");
    assert_eq!(DomainError::Internal("boom".into()).to_string(), "boom");
    assert_eq!(DomainError::QueueFull("q".into()).to_string(), "queue full: q");
}
