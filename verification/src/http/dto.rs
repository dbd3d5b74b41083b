//! Request and response bodies of the HTTP API.
//!
//! These are the plain shapes of the JSON bodies; their (de)serialisation
//! lives with the server that owns the transport.

use std::collections::HashMap;

use vstd::prelude::*;

use crate::domain::ids::{AccountId, GpuServerId, JobId, McpId, ProviderId, RoleId};

verus! {

// ── Accounts ─────────────────────────────────────────────────────────────────

#[derive(Debug, Clone, PartialEq, Eq)]
pub struct CreateAccountRequest {
    pub username: String,
    pub password: String,
    pub name: String,
    pub email: Option<String>,
    pub role_ids: Vec<RoleId>,
    pub role_id: Option<RoleId>,
    pub department: Option<String>,
    pub position: Option<String>,
}

#[derive(Debug, Clone, PartialEq, Eq)]
pub struct UpdateAccountRequest {
    pub name: Option<String>,
    pub email: Option<String>,
    pub department: Option<String>,
    pub position: Option<String>,
    pub role_ids: Option<Vec<RoleId>>,
}

#[derive(Debug, Clone, PartialEq, Eq)]
pub struct SetActiveRequest {
    pub is_active: bool,
}

#[derive(Debug, Clone, PartialEq, Eq)]
pub struct RoleInfo {
    pub id: RoleId,
    pub name: String,
}

#[derive(Debug, Clone, PartialEq, Eq)]
pub struct ResetLinkResponse {
    pub token: String,
}

#[derive(Debug, Clone, PartialEq, Eq)]
pub struct AuditQuery {
    pub limit: Option<u32>,
    pub offset: Option<u32>,
    pub action: Option<String>,
    pub resource_type: Option<String>,
    pub resource_id: Option<String>,
}

// ── Authentication ───────────────────────────────────────────────────────────

#[derive(Debug, Clone, PartialEq, Eq)]
pub struct LoginRequest {
    pub username: String,
    pub password: String,
}

#[derive(Debug, Clone, PartialEq, Eq)]
pub struct LoginResponse {
    pub ok: bool,
    pub account_id: AccountId,
    pub username: String,
    pub role: String,
    pub permissions: Vec<String>,
    pub menus: Vec<String>,
}

#[derive(Debug, Clone, PartialEq, Eq)]
pub struct RefreshResponse {
    pub ok: bool,
}

#[derive(Debug, Clone, PartialEq, Eq)]
pub struct ResetPasswordRequest {
    pub token: String,
    pub new_password: String,
}

#[derive(Debug, Clone, PartialEq, Eq)]
pub struct SetupStatusResponse {
    pub needs_setup: bool,
}

#[derive(Debug, Clone, PartialEq, Eq)]
pub struct SetupRequest {
    pub username: String,
    pub password: String,
}

// ── Conversations and dashboard ─────────────────────────────────────────────

/// Query of the conversation list; `limit` defaults to [`default_limit`].
#[derive(Debug, Clone, PartialEq, Eq)]
pub struct ListConversationsQuery {
    pub limit: i64,
    pub offset: i64,
    pub source: Option<String>,
    pub search: Option<String>,
}

/// Query of the job list; `limit` defaults to [`default_limit`].
#[derive(Debug, Clone, PartialEq, Eq)]
pub struct JobsQuery {
    pub limit: i64,
    pub offset: i64,
    pub status: Option<String>,
    pub q: Option<String>,
    pub source: Option<String>,
    pub model: Option<String>,
    pub provider: Option<String>,
}

#[derive(Debug, Clone, PartialEq, Eq)]
pub struct LoadedModelInfo {
    pub model_name: String,
    pub weight_mb: i32,
    pub kv_per_request_mb: i32,
    pub active_requests: u32,
    pub max_concurrent: u32,
    pub llm_concern: Option<String>,
    pub llm_reason: Option<String>,
}

#[derive(Debug, Clone, PartialEq, Eq)]
pub struct SyncSettingsResponse {
    pub analyzer_model: String,
    pub sync_enabled: bool,
    pub sync_interval_secs: i32,
    pub probe_permits: i32,
    pub probe_rate: i32,
    pub last_run_at: Option<String>,
    pub last_run_status: Option<String>,
    pub available_models: HashMap<String, Vec<String>>,
}

#[derive(Debug, Clone, PartialEq, Eq)]
/// Stored capacity-analyzer settings, with the last run time already
/// rendered as RFC 3339 text.
pub struct CapacitySettings {
    pub analyzer_model: String,
    pub sync_enabled: bool,
    pub sync_interval_secs: i32,
    pub probe_permits: i32,
    pub probe_rate: i32,
    pub last_run_at: Option<String>,
    pub last_run_status: Option<String>,
}

impl SyncSettingsResponse {
    /// Builds the settings response from the stored settings and the models
    /// currently available per provider.
    pub fn from_settings(
        settings: CapacitySettings,
        available_models: HashMap<String, Vec<String>>,
    ) -> (r: SyncSettingsResponse)
        ensures
            r.analyzer_model == settings.analyzer_model,
            r.sync_enabled == settings.sync_enabled,
            r.sync_interval_secs == settings.sync_interval_secs,
            r.probe_permits == settings.probe_permits,
            r.probe_rate == settings.probe_rate,
            r.last_run_at == settings.last_run_at,
            r.last_run_status == settings.last_run_status,
            r.available_models == available_models,
    {
        SyncSettingsResponse {
            analyzer_model: settings.analyzer_model,
            sync_enabled: settings.sync_enabled,
            sync_interval_secs: settings.sync_interval_secs,
            probe_permits: settings.probe_permits,
            probe_rate: settings.probe_rate,
            last_run_at: settings.last_run_at,
            last_run_status: settings.last_run_status,
            available_models,
        }
    }
}

#[derive(Debug, Clone, PartialEq, Eq)]
pub struct PatchSyncSettings {
    pub analyzer_model: Option<String>,
    pub sync_enabled: Option<bool>,
    pub sync_interval_secs: Option<i32>,
    pub probe_permits: Option<i32>,
    pub probe_rate: Option<i32>,
}

#[derive(Debug, Clone, PartialEq, Eq)]
pub struct ClusterModelInfo {
    pub model_name: String,
    pub weight_mb: i32,
    pub kv_per_request_mb: i32,
    pub total_active: u32,
    pub total_limit: u32,
    pub provider_count: u32,
}

#[derive(Debug, Clone, PartialEq, Eq)]
pub struct QueueDepth {
    pub api_paid: i64,
    pub api: i64,
    pub test: i64,
    pub total: i64,
}

#[derive(Debug, Clone, PartialEq, Eq)]
pub struct DashboardStats {
    pub total_keys: i64,
    pub active_keys: i64,
    pub total_jobs: i64,
    pub jobs_last_24h: i64,
    pub jobs_by_status: HashMap<String, i64>,
}

// ── Gemini and models ────────────────────────────────────────────────────────

#[derive(Debug, Clone, PartialEq, Eq)]
pub struct SyncConfigResponse {
    pub api_key_masked: Option<String>,
}

#[derive(Debug, Clone, PartialEq, Eq)]
pub struct SetSyncConfigRequest {
    pub api_key: String,
}

#[derive(Debug, Clone, PartialEq, Eq)]
pub struct SyncModelsResponse {
    pub models: Vec<String>,
    pub count: usize,
}

#[derive(Debug, Clone, PartialEq, Eq)]
pub struct GeminiStatusResult {
    pub id: ProviderId,
    pub name: String,
    pub status: String,
    pub error: Option<String>,
}

/// Body of a Gemini policy upsert; `available_on_free_tier` defaults to [`default_true`].
#[derive(Debug, Clone, PartialEq, Eq)]
pub struct UpsertGeminiPolicyRequest {
    pub rpm_limit: i32,
    pub rpd_limit: i32,
    pub available_on_free_tier: bool,
}

#[derive(Debug, Clone, PartialEq, Eq)]
pub struct GlobalModelSettingResponse {
    pub model_name: String,
    pub is_enabled: bool,
}

#[derive(Debug, Clone, PartialEq, Eq)]
pub struct SetEnabledBody {
    pub is_enabled: bool,
}

#[derive(Debug, Clone, PartialEq, Eq)]
pub struct SetModelEnabledRequest {
    pub is_enabled: bool,
}

#[derive(Debug, Clone, PartialEq, Eq)]
pub struct SyncJobResponse {
    pub job_id: JobId,
    pub status: String,
}

#[derive(Debug, Clone, PartialEq, Eq)]
pub struct OllamaModelDto {
    pub model_name: String,
    pub provider_count: i64,
    pub is_vision: bool,
    pub max_ctx: u32,
    pub is_enabled: bool,
}

#[derive(Debug, Clone, PartialEq, Eq)]
pub struct OllamaProviderDto {
    pub provider_id: ProviderId,
    pub name: String,
    pub url: String,
    pub status: String,
    pub is_enabled: bool,
}

#[derive(Debug, Clone, PartialEq, Eq)]
pub struct PullModelRequest {
    pub model: String,
    pub provider_id: ProviderId,
}

// ── GPU servers and providers ────────────────────────────────────────────────

#[derive(Debug, Clone, PartialEq, Eq)]
pub struct RegisterGpuServerRequest {
    pub name: String,
    pub node_exporter_url: Option<String>,
}

#[derive(Debug, Clone, PartialEq, Eq)]
pub struct VerifyServerRequest {
    pub url: String,
}

#[derive(Debug, Clone, PartialEq, Eq)]
pub struct UpdateGpuServerRequest {
    pub name: Option<String>,
    pub node_exporter_url: Option<String>,
}

#[derive(Debug, Clone, PartialEq, Eq)]
pub struct BatchMetricsQuery {
    pub ids: String,
}

#[derive(Debug, Clone, PartialEq, Eq)]
pub struct MetricsHistoryQuery {
    pub hours: Option<u32>,
}

#[derive(Debug, Clone, PartialEq, Eq)]
pub struct VerifyProviderRequest {
    pub url: String,
}

#[derive(Debug, Clone, PartialEq, Eq)]
pub struct RegisterProviderRequest {
    pub name: String,
    pub provider_type: String,
    pub url: Option<String>,
    pub api_key: Option<String>,
    pub total_vram_mb: Option<i64>,
    pub gpu_index: Option<i16>,
    pub server_id: Option<GpuServerId>,
    pub is_free_tier: Option<bool>,
    pub num_parallel: Option<i16>,
}

#[derive(Debug, Clone, PartialEq, Eq)]
pub struct UpdateProviderRequest {
    pub name: String,
    pub url: Option<String>,
    pub api_key: Option<String>,
    pub total_vram_mb: Option<i64>,
    pub gpu_index: Option<i16>,
    pub server_id: Option<GpuServerId>,
    pub is_free_tier: Option<bool>,
    pub num_parallel: Option<i16>,
    pub is_active: Option<bool>,
}

#[derive(Debug, Clone, PartialEq, Eq)]
pub struct RegisterProviderResponse {
    pub id: ProviderId,
    pub status: String,
}

#[derive(Debug, Clone, PartialEq, Eq)]
pub struct ListProvidersParams {
    pub search: Option<String>,
    pub page: Option<i64>,
    pub limit: Option<i64>,
    pub provider_type: Option<String>,
}

// ── Inference API ────────────────────────────────────────────────────────────

/// Native submit request; `provider_type` defaults to [`default_provider_type`].
#[derive(Debug, Clone, PartialEq, Eq)]
pub struct SubmitRequest {
    pub prompt: String,
    pub model: String,
    pub provider_type: String,
}

#[derive(Debug, Clone, PartialEq, Eq)]
pub struct SubmitResponse {
    pub job_id: String,
}

#[derive(Debug, Clone, PartialEq, Eq)]
pub struct StatusResponse {
    pub job_id: String,
    pub status: String,
}

#[derive(Debug, Clone, PartialEq, Eq)]
pub struct ServiceHealthResponse {
    pub infrastructure: Vec<ServiceStatus>,
    pub api_pods: Vec<PodStatus>,
    pub agent_pods: Vec<PodStatus>,
}

#[derive(Debug, Clone, PartialEq, Eq)]
pub struct ServiceStatus {
    pub name: String,
    pub status: String,
    pub latency_ms: Option<u32>,
    pub checked_at: Option<i64>,
}

#[derive(Debug, Clone, PartialEq, Eq)]
pub struct PodStatus {
    pub id: String,
    pub status: String,
    pub last_heartbeat_ms: Option<i64>,
}

#[derive(Debug, Clone, PartialEq, Eq)]
pub struct TopicPipelineStats {
    pub topic: String,
    pub consumer_offset: i64,
    pub log_end_offset: i64,
    pub lag: i64,
    pub tpm_1m: i64,
    pub tpm_5m: i64,
    pub last_poll_secs: Option<i64>,
    pub is_active: bool,
    pub last_error: Option<String>,
    pub consumer_count: u32,
}

#[derive(Debug, Clone, PartialEq, Eq)]
pub struct PipelineHealthResponse {
    pub topics: Vec<TopicPipelineStats>,
    pub available: bool,
}

// ── API keys and access control ──────────────────────────────────────────────

#[derive(Debug, Clone, PartialEq, Eq)]
pub struct PatchKeyRequest {
    pub is_active: Option<bool>,
    pub tier: Option<String>,
}

#[derive(Debug, Clone, PartialEq, Eq)]
pub struct McpAccessEntry {
    pub server_id: McpId,
    pub server_name: String,
    pub slug: String,
    pub is_allowed: bool,
    pub top_k: Option<i16>,
}

#[derive(Debug, Clone, PartialEq, Eq)]
pub struct GrantMcpAccessBody {
    pub server_id: McpId,
    pub top_k: Option<i16>,
}

#[derive(Debug, Clone, PartialEq, Eq)]
pub struct ProviderAccessEntry {
    pub provider_id: ProviderId,
    pub is_allowed: bool,
}

#[derive(Debug, Clone, PartialEq, Eq)]
pub struct SetAccessBody {
    pub is_allowed: bool,
}

// ── OpenAI compatibility ─────────────────────────────────────────────────────

#[derive(Debug, Clone, PartialEq, Eq)]
pub struct AudioTranscriptionResponse {
    pub text: String,
}

#[derive(Debug, Clone, PartialEq, Eq)]
pub struct StreamOptions {
    pub include_usage: Option<bool>,
}

#[derive(Debug, Clone, Copy, PartialEq, Eq, Structural)]
pub struct PromptTokensDetails {
    pub cached_tokens: u32,
    pub audio_tokens: u32,
}

#[derive(Debug, Clone, Copy, PartialEq, Eq, Structural)]
pub struct CompletionTokensDetails {
    pub reasoning_tokens: u32,
    pub accepted_prediction_tokens: u32,
    pub rejected_prediction_tokens: u32,
    pub audio_tokens: u32,
}

#[derive(Debug, Clone, PartialEq, Eq)]
pub struct UsageInfo {
    pub prompt_tokens: u32,
    pub completion_tokens: u32,
    pub total_tokens: u32,
    pub prompt_tokens_details: PromptTokensDetails,
    pub completion_tokens_details: CompletionTokensDetails,
}

impl Default for PromptTokensDetails {
    fn default() -> (r: PromptTokensDetails)
        ensures
            r == (PromptTokensDetails { cached_tokens: 0, audio_tokens: 0 }),
    {
        PromptTokensDetails { cached_tokens: 0, audio_tokens: 0 }
    }
}

impl Default for CompletionTokensDetails {
    fn default() -> (r: CompletionTokensDetails)
        ensures
            r == (CompletionTokensDetails {
                reasoning_tokens: 0,
                accepted_prediction_tokens: 0,
                rejected_prediction_tokens: 0,
                audio_tokens: 0,
            }),
    {
        CompletionTokensDetails {
            reasoning_tokens: 0,
            accepted_prediction_tokens: 0,
            rejected_prediction_tokens: 0,
            audio_tokens: 0,
        }
    }
}

/// Default page size of list queries.
pub fn default_limit() -> (r: i64)
    ensures
        r == 50,
{
    50
}

/// Default of boolean flags that are on unless stated otherwise.
pub fn default_true() -> (r: bool)
    ensures
        r,
{
    true
}

/// Default provider type of a native submit request.
pub fn default_provider_type() -> (r: String)
    ensures
        r@ == "ollama"@,
{
    crate::text::owned("ollama")
}

} // verus!
