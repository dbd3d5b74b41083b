//! Domain entities that the gateway logic reads: accounts, sessions, API
//! keys, providers and GPU servers, inference results. Identifiers are UUID
//! values; instants are carried as Unix microseconds.

use vstd::prelude::*;

use crate::domain::enums::{AccountRole, FinishReason, KeyTier, KeyType, LlmProviderStatus, ProviderType};
use crate::domain::ids::JobId;

verus! {

/// Outcome of one inference run, as reported by a provider adapter.
#[derive(Debug, Clone, PartialEq, Eq)]
pub struct InferenceResult {
    pub job_id: JobId,
    pub prompt_tokens: u32,
    pub completion_tokens: u32,
    /// Tokens served from a provider-side cache; `None` when not reported.
    pub cached_tokens: Option<u32>,
    pub latency_ms: u32,
    pub ttft_ms: Option<u32>,
    pub tokens: Vec<String>,
    pub finish_reason: FinishReason,
}

/// Default `num_parallel` of a provider when none is stored.
pub fn default_num_parallel() -> (r: i16)
    ensures
        r == 4,
{
    4
}

/// API key entity used for tenant authentication. Only the hash of the
/// plaintext key is kept; `key_prefix` is its first characters, for display.
#[derive(Debug, Clone, PartialEq, Eq)]
pub struct ApiKey {
    pub id: u128,
    pub key_hash: String,
    pub key_prefix: String,
    pub tenant_id: String,
    pub name: String,
    pub is_active: bool,
    /// Requests per minute; `0` means unlimited.
    pub rate_limit_rpm: i32,
    /// Tokens per minute; `0` means unlimited.
    pub rate_limit_tpm: i32,
    /// Expiry instant (Unix microseconds), if any.
    pub expires_at: Option<i64>,
    /// Creation instant (Unix microseconds).
    pub created_at: i64,
    /// Soft-delete instant (Unix microseconds), if deleted.
    pub deleted_at: Option<i64>,
    pub key_type: KeyType,
    pub tier: KeyTier,
    pub account_id: Option<u128>,
}

/// The plaintext of a newly created API key, handed out once.
#[derive(Debug, Clone, PartialEq, Eq)]
pub struct ApiKeyCreated {
    pub id: u128,
    pub key: String,
    pub key_prefix: String,
    pub tenant_id: String,
    /// Creation instant (Unix microseconds).
    pub created_at: i64,
}

/// An operator account of the admin interface.
#[derive(Debug, Clone, PartialEq, Eq)]
pub struct Account {
    pub id: u128,
    pub username: String,
    pub password_hash: String,
    pub name: String,
    pub email: Option<String>,
    pub role: AccountRole,
    pub department: Option<String>,
    pub position: Option<String>,
    pub is_active: bool,
    pub created_by: Option<u128>,
    pub last_login_at: Option<i64>,
    pub created_at: i64,
    pub deleted_at: Option<i64>,
}

/// An active or revoked login session; `jti` is the id carried by its
/// access tokens.
#[derive(Debug, Clone, PartialEq, Eq)]
pub struct Session {
    pub id: u128,
    pub account_id: u128,
    pub jti: u128,
    /// Hex BLAKE2b-256 hash of the refresh token.
    pub refresh_token_hash: Option<String>,
    pub ip_address: Option<String>,
    pub created_at: i64,
    pub last_used_at: Option<i64>,
    /// End of the access token's lifetime.
    pub expires_at: i64,
    pub revoked_at: Option<i64>,
}

/// A GPU host, with its node-exporter endpoint if known.
#[derive(Debug, Clone, PartialEq, Eq)]
pub struct GpuServer {
    pub id: u128,
    pub name: String,
    pub node_exporter_url: Option<String>,
    pub registered_at: i64,
}

/// A registered inference backend.
#[derive(Debug, Clone, PartialEq, Eq)]
pub struct LlmProvider {
    pub id: u128,
    pub name: String,
    pub provider_type: ProviderType,
    pub url: String,
    pub api_key_encrypted: Option<String>,
    /// Whether the provider takes traffic.
    pub is_active: bool,
    /// VRAM capacity in MiB; `0` when unknown.
    pub total_vram_mb: i64,
    pub gpu_index: Option<i16>,
    pub server_id: Option<u128>,
    pub is_free_tier: bool,
    pub num_parallel: i16,
    pub status: LlmProviderStatus,
    pub registered_at: i64,
}

impl LlmProvider {
    /// True for Ollama providers (local GPU hosts).
    pub fn is_ollama(&self) -> (r: bool)
        ensures
            r == (self.provider_type == ProviderType::Ollama),
    {
        match self.provider_type {
            ProviderType::Ollama => true,
            _ => false,
        }
    }

    /// True for Gemini providers (cloud).
    pub fn is_gemini(&self) -> (r: bool)
        ensures
            r == (self.provider_type == ProviderType::Gemini),
    {
        match self.provider_type {
            ProviderType::Gemini => true,
            _ => false,
        }
    }
}

/// Per-model Gemini rate limits; `0` disables a limit, `"*"` is the default.
#[derive(Debug, Clone, PartialEq, Eq)]
pub struct GeminiRateLimitPolicy {
    pub id: u128,
    pub model_name: String,
    pub rpm_limit: i32,
    pub rpd_limit: i32,
    pub available_on_free_tier: bool,
    pub updated_at: i64,
}

} // verus!
