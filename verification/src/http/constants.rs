//! HTTP-layer constants: streaming, input limits, timeouts and messages.

use vstd::prelude::*;

verus! {

/// SSE keep-alive ping interval in seconds.
pub const SSE_KEEP_ALIVE_SECS: u64 = 15;

/// Maximum concurrent SSE connections across the instance.
pub const SSE_MAX_CONNECTIONS: u32 = 100;

/// Hard timeout for SSE streams in seconds (28 min 20 s).
pub const SSE_TIMEOUT_SECS: u64 = 1700;

/// Maximum prompt length in bytes (1 MB).
pub const MAX_PROMPT_BYTES: usize = 1_000_000;

/// Maximum model name length in bytes.
pub const MAX_MODEL_NAME_BYTES: usize = 256;

/// Maximum longest edge (px) for server-side image compression.
pub const IMAGE_COMPRESS_MAX_EDGE: u32 = 1024;

/// Provider type string for Ollama providers.
pub const PROVIDER_OLLAMA: &'static str = "ollama";

/// Provider type string for Gemini providers.
pub const PROVIDER_GEMINI: &'static str = "gemini";

/// Access token cookie Max-Age in seconds (1 hour).
pub const ACCESS_TOKEN_MAX_AGE: u32 = 3600;

/// Refresh token cookie Max-Age in seconds (7 days).
pub const REFRESH_TOKEN_MAX_AGE: u32 = 604800;

/// TTL (seconds) of the per-provider model list cache.
pub const MODELS_CACHE_TTL: i64 = 3600;

/// Timeout of the JWT-authenticated admin router in seconds.
pub const JWT_ROUTER_TIMEOUT_SECS: u64 = 30;

/// Timeout of the inference router in seconds (≈ 29 min).
pub const INFERENCE_ROUTER_TIMEOUT_SECS: u64 = 1750;

/// Timeout of the dashboard queue-depth fetch in seconds.
pub const DASHBOARD_QUEUE_DEPTH_TIMEOUT_SECS: u64 = 3;

/// Timeout of the dashboard stats fetch in seconds.
pub const DASHBOARD_STATS_TIMEOUT_SECS: u64 = 10;

/// Timeout of an outbound vision-analysis call in seconds.
pub const VISION_HTTP_TIMEOUT_SECS: u64 = 120;

/// Default JSON body limit (1 MB).
pub const JSON_BODY_LIMIT: usize = 1024 * 1024;

/// Body limit for image-capable endpoints (20 MB).
pub const IMAGE_BODY_LIMIT: usize = 20 * 1024 * 1024;

/// Maximum concurrent in-flight requests per API key.
pub const MAX_KEY_CONCURRENT: u32 = 10;

/// Hard upper bound on page numbers accepted from clients.
pub const MAX_PAGE: i64 = 10_000;

pub const ERR_DATABASE: &'static str = "database error";

pub const ERR_MODEL_INVALID: &'static str = "model name invalid or too long";

pub const ERR_PROMPT_TOO_LARGE: &'static str = "content exceeds maximum length of 1MB";

/// Request timeout (seconds) of the gateway in front of the service.
pub const GATEWAY_REQUEST_TIMEOUT_SECS: u64 = 1800;

/// Worst-case budget (seconds) of one tool-bridge round.
pub const BRIDGE_ROUND_TOTAL_TIMEOUT_SECS: u64 = 1500;

/// The timeouts nest: one bridge round fits in an SSE stream, the SSE stream
/// ends before the inference router gives up, and both end before the
/// gateway's request timeout, so clients see a clean SSE error rather than an
/// opaque 504.
pub proof fn lemma_timeouts_nest()
    ensures
        SSE_TIMEOUT_SECS < GATEWAY_REQUEST_TIMEOUT_SECS,
        SSE_TIMEOUT_SECS >= BRIDGE_ROUND_TOTAL_TIMEOUT_SECS,
        INFERENCE_ROUTER_TIMEOUT_SECS < GATEWAY_REQUEST_TIMEOUT_SECS,
        INFERENCE_ROUTER_TIMEOUT_SECS > SSE_TIMEOUT_SECS,
{
}

} // verus!
