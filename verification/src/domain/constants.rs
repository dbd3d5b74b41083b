//! Domain and application-layer constants, and the canonical (unprefixed)
//! key strings of the shared key-value store.

use vstd::prelude::*;
use vstd::string::*;

use crate::codec::{uuid_hyphenated, uuid_text};
use crate::text::{i64_to_decimal, int_decimal};

verus! {

// ── Tier / routing strings ───────────────────────────────────────────────────

/// Gemini free-tier routing value.
pub const GEMINI_TIER_FREE: &'static str = "free";

/// API key billing tier value for paid keys.
pub const KEY_TIER_PAID: &'static str = "paid";

/// Prefix prepended to every generated API key plaintext (`iq_<base62>`).
pub const API_KEY_PREFIX: &'static str = "iq_";

// ── Rate limiting and job lifecycle ──────────────────────────────────────────

/// Estimated tokens reserved per request at admission by the TPM limiter.
pub const TPM_ESTIMATED_TOKENS: i64 = 500;

/// Seconds before a finished job entry is removed from memory.
pub const JOB_CLEANUP_DELAY_SECS: u64 = 60;

/// TTL of the job-owner key in seconds.
pub const JOB_OWNER_TTL_SECS: i64 = 300;

/// Initial capacity of the per-job token vector.
pub const INITIAL_TOKEN_CAPACITY: usize = 256;

/// Hard limit on tokens stored per job.
pub const MAX_TOKENS_PER_JOB: usize = 100_000;

/// Default API job queue.
pub const QUEUE_JOBS: &'static str = "veronex:queue:jobs";

/// Paid-tier API job queue (highest priority).
pub const QUEUE_JOBS_PAID: &'static str = "veronex:queue:jobs:paid";

/// Test/dashboard job queue (lowest priority).
pub const QUEUE_JOBS_TEST: &'static str = "veronex:queue:jobs:test";

/// Unified priority queue (sorted set; lower score is higher priority).
pub const QUEUE_ZSET: &'static str = "veronex:queue:zset";

/// Max consecutive "no eligible provider" cycles before a job fails.
pub const MAX_NO_PROVIDER_ATTEMPTS: i64 = 3;

/// Lease TTL in milliseconds.
pub const LEASE_TTL_MS: u64 = 90_000;

/// Hard cap on the queue size.
pub const MAX_QUEUE_SIZE: u64 = 10_000;

/// Per-model queue cap.
pub const MAX_QUEUE_PER_MODEL: u64 = 2_000;

/// Tier bonus (ms) subtracted from the enqueue time of paid-tier jobs.
pub const TIER_BONUS_PAID: u64 = 300_000;

/// Tier bonus (ms) for standard-tier jobs.
pub const TIER_BONUS_STANDARD: u64 = 100_000;

/// Tier bonus (ms) for test/dashboard jobs.
pub const TIER_BONUS_TEST: u64 = 0;

/// Seconds in queue after which a job is promoted.
pub const TIER_EXPIRE_SECS: u64 = 250;

/// Maximum seconds a job may wait in the queue.
pub const MAX_QUEUE_WAIT_SECS: u64 = 300;

/// Hard cap on `max_tokens` accepted from clients.
pub const MAX_TOKENS_CEILING: u32 = 32_768;

/// Maximum number of messages accepted in a chat request.
pub const MAX_CHAT_MESSAGES: usize = 256;

/// Maximum bytes in a streaming line buffer.
pub const MAX_LINE_BUFFER: usize = 1_048_576;

/// Phase-1 cold-load timeout in seconds.
pub const MCP_LIFECYCLE_LOAD_TIMEOUT_SECS: u64 = 600;

/// Phase-2 first-token timeout in seconds.
pub const MCP_TOKEN_FIRST_TIMEOUT_SECS: u64 = 300;

/// Per-token stream idle timeout in seconds.
pub const MCP_STREAM_IDLE_TIMEOUT_SECS: u64 = 45;

/// Hard cap per MCP round in seconds.
pub const MCP_ROUND_TOTAL_TIMEOUT_SECS: u64 = 1500;

/// TTL (seconds) of the password-reset token.
pub const PASSWORD_RESET_TTL_SECS: i64 = 86_400;

/// Sliding window (seconds) of the per-IP login-attempts counter.
pub const LOGIN_ATTEMPTS_WINDOW_SECS: i64 = 300;

/// Default `Retry-After` (seconds) for generic rate-limit errors.
pub const RATE_LIMIT_RETRY_AFTER_SECS: u64 = 60;

// ── Raw keys ─────────────────────────────────────────────────────────────────

pub const AGENT_INSTANCES_SET_KEY: &'static str = "veronex:agent:instances";

pub const INSTANCES_SET_KEY: &'static str = "veronex:instances";

pub const PUBSUB_JOB_EVENTS_KEY: &'static str = "veronex:pubsub:job_events";

pub const PUBSUB_CANCEL_PATTERN_KEY: &'static str = "veronex:pubsub:cancel:*";

pub const PUBSUB_CANCEL_PREFIX_KEY: &'static str = "veronex:pubsub:cancel:";

// ── Key constructors ─────────────────────────────────────────────────────────

/// Key `veronex:job:owner:{job_id}`.
pub fn job_owner_key(job_id: u128) -> (r: String)
    ensures
        r@ == "veronex:job:owner:"@ + uuid_hyphenated(job_id),
{
    let mut r = "veronex:job:owner:".to_owned();
    let job_id_text = uuid_text(job_id);
    r.append(job_id_text.as_str());
    r
}

/// Key `veronex:stream:tokens:{job_id}`.
pub fn stream_tokens_key(job_id: u128) -> (r: String)
    ensures
        r@ == "veronex:stream:tokens:"@ + uuid_hyphenated(job_id),
{
    let mut r = "veronex:stream:tokens:".to_owned();
    let job_id_text = uuid_text(job_id);
    r.append(job_id_text.as_str());
    r
}

/// Key `veronex:pubsub:cancel:{job_id}`.
pub fn pubsub_cancel_key(job_id: u128) -> (r: String)
    ensures
        r@ == "veronex:pubsub:cancel:"@ + uuid_hyphenated(job_id),
{
    let mut r = "veronex:pubsub:cancel:".to_owned();
    let job_id_text = uuid_text(job_id);
    r.append(job_id_text.as_str());
    r
}

/// Key `veronex:conv:{conversation_id}`.
pub fn conversation_record_key(conversation_id: u128) -> (r: String)
    ensures
        r@ == "veronex:conv:"@ + uuid_hyphenated(conversation_id),
{
    let mut r = "veronex:conv:".to_owned();
    let conversation_id_text = uuid_text(conversation_id);
    r.append(conversation_id_text.as_str());
    r
}

/// Key `conv_s3:{conv_id}`.
pub fn conv_s3_cache_key(conv_id: u128) -> (r: String)
    ensures
        r@ == "conv_s3:"@ + uuid_hyphenated(conv_id),
{
    let mut r = "conv_s3:".to_owned();
    let conv_id_text = uuid_text(conv_id);
    r.append(conv_id_text.as_str());
    r
}

/// Key `veronex:heartbeat:{instance_id}`.
pub fn heartbeat_key(instance_id: &str) -> (r: String)
    ensures
        r@ == "veronex:heartbeat:"@ + instance_id@,
{
    let mut r = "veronex:heartbeat:".to_owned();
    r.append(instance_id);
    r
}

/// Key `veronex:agent:hb:{hostname}`.
pub fn agent_heartbeat_key(hostname: &str) -> (r: String)
    ensures
        r@ == "veronex:agent:hb:"@ + hostname@,
{
    let mut r = "veronex:agent:hb:".to_owned();
    r.append(hostname);
    r
}

/// Key `veronex:slot_leases:{provider_id}:{model}`.
pub fn slot_leases_key(provider_id: u128, model: &str) -> (r: String)
    ensures
        r@ == "veronex:slot_leases:"@ + uuid_hyphenated(provider_id) + ":"@ + model@,
{
    let mut r = "veronex:slot_leases:".to_owned();
    let provider_id_text = uuid_text(provider_id);
    r.append(provider_id_text.as_str());
    r.append(":");
    r.append(model);
    r
}

/// Key `veronex:provider:hb:{provider_id}`.
pub fn provider_heartbeat_key(provider_id: u128) -> (r: String)
    ensures
        r@ == "veronex:provider:hb:"@ + uuid_hyphenated(provider_id),
{
    let mut r = "veronex:provider:hb:".to_owned();
    let provider_id_text = uuid_text(provider_id);
    r.append(provider_id_text.as_str());
    r
}

/// Key `veronex:provider:{provider_id}:capacity_state`.
pub fn provider_capacity_state_key(provider_id: u128) -> (r: String)
    ensures
        r@ == "veronex:provider:"@ + uuid_hyphenated(provider_id) + ":capacity_state"@,
{
    let mut r = "veronex:provider:".to_owned();
    let provider_id_text = uuid_text(provider_id);
    r.append(provider_id_text.as_str());
    r.append(":capacity_state");
    r
}

/// Key `veronex:models:{provider_id}`.
pub fn provider_models_key(provider_id: u128) -> (r: String)
    ensures
        r@ == "veronex:models:"@ + uuid_hyphenated(provider_id),
{
    let mut r = "veronex:models:".to_owned();
    let provider_id_text = uuid_text(provider_id);
    r.append(provider_id_text.as_str());
    r
}

/// Key `veronex:hw:{provider_id}`.
pub fn hw_metrics_key(provider_id: u128) -> (r: String)
    ensures
        r@ == "veronex:hw:"@ + uuid_hyphenated(provider_id),
{
    let mut r = "veronex:hw:".to_owned();
    let provider_id_text = uuid_text(provider_id);
    r.append(provider_id_text.as_str());
    r
}

/// Key `veronex:server_metrics:{server_id}`.
pub fn server_node_metrics_key(server_id: u128) -> (r: String)
    ensures
        r@ == "veronex:server_metrics:"@ + uuid_hyphenated(server_id),
{
    let mut r = "veronex:server_metrics:".to_owned();
    let server_id_text = uuid_text(server_id);
    r.append(server_id_text.as_str());
    r
}

/// Key `veronex:throttle:{provider_id}`.
pub fn thermal_throttle_key(provider_id: u128) -> (r: String)
    ensures
        r@ == "veronex:throttle:"@ + uuid_hyphenated(provider_id),
{
    let mut r = "veronex:throttle:".to_owned();
    let provider_id_text = uuid_text(provider_id);
    r.append(provider_id_text.as_str());
    r
}

/// Key `veronex:vram_reserved:{provider_id}`.
pub fn vram_reserved_key(provider_id: u128) -> (r: String)
    ensures
        r@ == "veronex:vram_reserved:"@ + uuid_hyphenated(provider_id),
{
    let mut r = "veronex:vram_reserved:".to_owned();
    let provider_id_text = uuid_text(provider_id);
    r.append(provider_id_text.as_str());
    r
}

/// Key `veronex:vram_leases:{provider_id}`.
pub fn vram_leases_key(provider_id: u128) -> (r: String)
    ensures
        r@ == "veronex:vram_leases:"@ + uuid_hyphenated(provider_id),
{
    let mut r = "veronex:vram_leases:".to_owned();
    let provider_id_text = uuid_text(provider_id);
    r.append(provider_id_text.as_str());
    r
}

/// Key `veronex:demand:{model}`.
pub fn demand_key(model: &str) -> (r: String)
    ensures
        r@ == "veronex:demand:"@ + model@,
{
    let mut r = "veronex:demand:".to_owned();
    r.append(model);
    r
}

/// Key `veronex:preloading:{model}:{provider_id}`.
pub fn preload_lock_key(model: &str, provider_id: u128) -> (r: String)
    ensures
        r@ == "veronex:preloading:"@ + model@ + ":"@ + uuid_hyphenated(provider_id),
{
    let mut r = "veronex:preloading:".to_owned();
    r.append(model);
    r.append(":");
    let provider_id_text = uuid_text(provider_id);
    r.append(provider_id_text.as_str());
    r
}

/// Key `veronex:scaleout:{model}`.
pub fn scaleout_decision_key(model: &str) -> (r: String)
    ensures
        r@ == "veronex:scaleout:"@ + model@,
{
    let mut r = "veronex:scaleout:".to_owned();
    r.append(model);
    r
}

/// Key `veronex:revoked:{jti}`.
pub fn revoked_jti_key(jti: u128) -> (r: String)
    ensures
        r@ == "veronex:revoked:"@ + uuid_hyphenated(jti),
{
    let mut r = "veronex:revoked:".to_owned();
    let jti_text = uuid_text(jti);
    r.append(jti_text.as_str());
    r
}

/// Key `veronex:pwreset:{token}`.
pub fn password_reset_key(token: &str) -> (r: String)
    ensures
        r@ == "veronex:pwreset:"@ + token@,
{
    let mut r = "veronex:pwreset:".to_owned();
    r.append(token);
    r
}

/// Key `veronex:refresh_used:{hash}`.
pub fn refresh_blocklist_key(hash: &str) -> (r: String)
    ensures
        r@ == "veronex:refresh_used:"@ + hash@,
{
    let mut r = "veronex:refresh_used:".to_owned();
    r.append(hash);
    r
}

/// Key `veronex:login_attempts:{ip}`.
pub fn login_attempts_key(ip: &str) -> (r: String)
    ensures
        r@ == "veronex:login_attempts:"@ + ip@,
{
    let mut r = "veronex:login_attempts:".to_owned();
    r.append(ip);
    r
}

/// Key `veronex:ratelimit:rpm:{key_id}`.
pub fn ratelimit_rpm_key(key_id: u128) -> (r: String)
    ensures
        r@ == "veronex:ratelimit:rpm:"@ + uuid_hyphenated(key_id),
{
    let mut r = "veronex:ratelimit:rpm:".to_owned();
    let key_id_text = uuid_text(key_id);
    r.append(key_id_text.as_str());
    r
}

/// Key `veronex:ratelimit:tpm:{key_id}:{minute}`.
pub fn ratelimit_tpm_key(key_id: u128, minute: i64) -> (r: String)
    ensures
        r@ == "veronex:ratelimit:tpm:"@ + uuid_hyphenated(key_id) + ":"@ + int_decimal(minute as int),
{
    let mut r = "veronex:ratelimit:tpm:".to_owned();
    let key_id_text = uuid_text(key_id);
    r.append(key_id_text.as_str());
    r.append(":");
    let minute_text = i64_to_decimal(minute);
    r.append(minute_text.as_str());
    r
}

/// Key `veronex:gemini:rpm:{provider_id}:{model}:{minute}`.
pub fn gemini_rpm_key(provider_id: u128, model: &str, minute: i64) -> (r: String)
    ensures
        r@ == "veronex:gemini:rpm:"@ + uuid_hyphenated(provider_id) + ":"@ + model@ + ":"@ + int_decimal(minute as int),
{
    let mut r = "veronex:gemini:rpm:".to_owned();
    let provider_id_text = uuid_text(provider_id);
    r.append(provider_id_text.as_str());
    r.append(":");
    r.append(model);
    r.append(":");
    let minute_text = i64_to_decimal(minute);
    r.append(minute_text.as_str());
    r
}

/// Key `veronex:gemini:rpd:{provider_id}:{model}:{date}`.
pub fn gemini_rpd_key(provider_id: u128, model: &str, date: &str) -> (r: String)
    ensures
        r@ == "veronex:gemini:rpd:"@ + uuid_hyphenated(provider_id) + ":"@ + model@ + ":"@ + date@,
{
    let mut r = "veronex:gemini:rpd:".to_owned();
    let provider_id_text = uuid_text(provider_id);
    r.append(provider_id_text.as_str());
    r.append(":");
    r.append(model);
    r.append(":");
    r.append(date);
    r
}

/// Key `veronex:ollama:ctx:{provider_id}:{model_name}`.
pub fn ollama_model_ctx_key(provider_id: u128, model_name: &str) -> (r: String)
    ensures
        r@ == "veronex:ollama:ctx:"@ + uuid_hyphenated(provider_id) + ":"@ + model_name@,
{
    let mut r = "veronex:ollama:ctx:".to_owned();
    let provider_id_text = uuid_text(provider_id);
    r.append(provider_id_text.as_str());
    r.append(":");
    r.append(model_name);
    r
}

/// Key `veronex:svc:health:{instance_id}`.
pub fn service_health_key(instance_id: &str) -> (r: String)
    ensures
        r@ == "veronex:svc:health:"@ + instance_id@,
{
    let mut r = "veronex:svc:health:".to_owned();
    r.append(instance_id);
    r
}

/// Key `veronex:mcp:tools:{server_id}`.
pub fn mcp_tool_key(server_id: u128) -> (r: String)
    ensures
        r@ == "veronex:mcp:tools:"@ + uuid_hyphenated(server_id),
{
    let mut r = "veronex:mcp:tools:".to_owned();
    let server_id_text = uuid_text(server_id);
    r.append(server_id_text.as_str());
    r
}

/// Key `veronex:mcp:tools:lock:{server_id}`.
pub fn mcp_tool_lock_key(server_id: u128) -> (r: String)
    ensures
        r@ == "veronex:mcp:tools:lock:"@ + uuid_hyphenated(server_id),
{
    let mut r = "veronex:mcp:tools:lock:".to_owned();
    let server_id_text = uuid_text(server_id);
    r.append(server_id_text.as_str());
    r
}

/// Key `veronex:mcp:heartbeat:{server_id}`.
pub fn mcp_heartbeat_key(server_id: u128) -> (r: String)
    ensures
        r@ == "veronex:mcp:heartbeat:"@ + uuid_hyphenated(server_id),
{
    let mut r = "veronex:mcp:heartbeat:".to_owned();
    let server_id_text = uuid_text(server_id);
    r.append(server_id_text.as_str());
    r
}

/// Key `veronex:mcp:acl:{api_key_id}`.
pub fn mcp_key_acl_key(api_key_id: u128) -> (r: String)
    ensures
        r@ == "veronex:mcp:acl:"@ + uuid_hyphenated(api_key_id),
{
    let mut r = "veronex:mcp:acl:".to_owned();
    let api_key_id_text = uuid_text(api_key_id);
    r.append(api_key_id_text.as_str());
    r
}

/// Key `veronex:mcp:cap:{api_key_id}`.
pub fn mcp_key_cap_points_key(api_key_id: u128) -> (r: String)
    ensures
        r@ == "veronex:mcp:cap:"@ + uuid_hyphenated(api_key_id),
{
    let mut r = "veronex:mcp:cap:".to_owned();
    let api_key_id_text = uuid_text(api_key_id);
    r.append(api_key_id_text.as_str());
    r
}

/// Key `veronex:mcp:topk:{api_key_id}`.
pub fn mcp_key_top_k_key(api_key_id: u128) -> (r: String)
    ensures
        r@ == "veronex:mcp:topk:"@ + uuid_hyphenated(api_key_id),
{
    let mut r = "veronex:mcp:topk:".to_owned();
    let api_key_id_text = uuid_text(api_key_id);
    r.append(api_key_id_text.as_str());
    r
}

/// Key `veronex:mcp:result:{tool_name}:{args_hash}`.
pub fn mcp_result_key(tool_name: &str, args_hash: &str) -> (r: String)
    ensures
        r@ == "veronex:mcp:result:"@ + tool_name@ + ":"@ + args_hash@,
{
    let mut r = "veronex:mcp:result:".to_owned();
    r.append(tool_name);
    r.append(":");
    r.append(args_hash);
    r
}

/// Key `veronex:mcp:tools_summary:{server_id}`.
pub fn mcp_tools_summary_key(server_id: u128) -> (r: String)
    ensures
        r@ == "veronex:mcp:tools_summary:"@ + uuid_hyphenated(server_id),
{
    let mut r = "veronex:mcp:tools_summary:".to_owned();
    let server_id_text = uuid_text(server_id);
    r.append(server_id_text.as_str());
    r
}
/// The MCP phase budget fits: a round covers the cold load plus the first
/// token, and stays under the gateway's 1800-second request cap.
pub proof fn lemma_mcp_round_budget()
    ensures
        MCP_ROUND_TOTAL_TIMEOUT_SECS >= MCP_LIFECYCLE_LOAD_TIMEOUT_SECS + MCP_TOKEN_FIRST_TIMEOUT_SECS,
        MCP_ROUND_TOTAL_TIMEOUT_SECS <= 1800,
{
}

} // verus!
