//! Domain enumerations and their wire names.
//!
//! Every enum with a textual form has a spec function `name` giving that
//! form, an executable `as_str` returning it, and (where the service parses
//! it back) a `from_name` spec function with an executable `parse_str`.

use vstd::prelude::*;

use crate::text::{concat2, lower, str_eq, to_ascii_lower};

verus! {

// ── Account role ─────────────────────────────────────────────────────────────

/// Legacy account role, kept for backward compatibility.
#[derive(Debug, Clone, Copy, PartialEq, Eq, Structural)]
pub enum AccountRole {
    Super,
    Admin,
}

impl AccountRole {
    pub open spec fn name(self) -> Seq<char> {
        match self {
            AccountRole::Super => "super"@,
            AccountRole::Admin => "admin"@,
        }
    }

    pub open spec fn from_name(s: Seq<char>) -> Option<AccountRole> {
        if s == "super"@ {
            Some(AccountRole::Super)
        } else if s == "admin"@ {
            Some(AccountRole::Admin)
        } else {
            None
        }
    }

    pub fn as_str(&self) -> (r: &'static str)
        ensures
            r@ == self.name(),
    {
        match self {
            AccountRole::Super => "super",
            AccountRole::Admin => "admin",
        }
    }

    /// Parses the wire name; the error message names the rejected input.
    pub fn parse_str(s: &str) -> (r: Result<AccountRole, String>)
        ensures
            match r {
                Ok(x) => AccountRole::from_name(s@) == Some(x),
                Err(e) => AccountRole::from_name(s@) is None && e@ == "invalid role: "@ + s@,
            },
    {
        if str_eq(s, "super") {
            Ok(AccountRole::Super)
        } else if str_eq(s, "admin") {
            Ok(AccountRole::Admin)
        } else {
            Err(concat2("invalid role: ", s))
        }
    }
}

impl std::str::FromStr for AccountRole {
    type Err = String;

    fn from_str(s: &str) -> (r: Result<AccountRole, String>)
        ensures
            match r {
                Ok(x) => AccountRole::from_name(s@) == Some(x),
                Err(e) => AccountRole::from_name(s@) is None && e@ == "invalid role: "@ + s@,
            },
    {
        AccountRole::parse_str(s)
    }
}

/// Parsing the wire name of a role gives the role back.
pub proof fn lemma_account_role_roundtrip(x: AccountRole)
    ensures
        AccountRole::from_name(x.name()) == Some(x),
{
    reveal_strlit("super");
    reveal_strlit("admin");
    assert("admin"@[0] != "super"@[0]);
}

// ── Permission ───────────────────────────────────────────────────────────────

/// Permission identifiers stored in `roles.permissions`.
#[derive(Debug, Clone, Copy, PartialEq, Eq, Structural)]
pub enum Permission {
    DashboardView,
    ApiTest,
    ProviderManage,
    KeyManage,
    AccountManage,
    AuditView,
    SettingsManage,
    RoleManage,
    ModelManage,
}

impl Permission {
    pub open spec fn name(self) -> Seq<char> {
        match self {
            Permission::DashboardView => "dashboard_view"@,
            Permission::ApiTest => "api_test"@,
            Permission::ProviderManage => "provider_manage"@,
            Permission::KeyManage => "key_manage"@,
            Permission::AccountManage => "account_manage"@,
            Permission::AuditView => "audit_view"@,
            Permission::SettingsManage => "settings_manage"@,
            Permission::RoleManage => "role_manage"@,
            Permission::ModelManage => "model_manage"@,
        }
    }

    pub fn as_str(&self) -> (r: &'static str)
        ensures
            r@ == self.name(),
    {
        match self {
            Permission::DashboardView => "dashboard_view",
            Permission::ApiTest => "api_test",
            Permission::ProviderManage => "provider_manage",
            Permission::KeyManage => "key_manage",
            Permission::AccountManage => "account_manage",
            Permission::AuditView => "audit_view",
            Permission::SettingsManage => "settings_manage",
            Permission::RoleManage => "role_manage",
            Permission::ModelManage => "model_manage",
        }
    }
}

/// All valid permission strings, used for input validation.
pub const ALL_PERMISSIONS: &'static [&'static str; 9] = &[
    "dashboard_view",
    "api_test",
    "provider_manage",
    "key_manage",
    "account_manage",
    "audit_view",
    "settings_manage",
    "role_manage",
    "model_manage",
];

// ── Menu ─────────────────────────────────────────────────────────────────────

/// Menu identifiers stored in `roles.menus`.
#[derive(Debug, Clone, Copy, PartialEq, Eq, Structural)]
pub enum MenuId {
    Dashboard,
    Flow,
    Jobs,
    Performance,
    Usage,
    Test,
    Providers,
    Servers,
    Keys,
    Accounts,
    Audit,
    ApiDocs,
}

/// All valid menu ID strings, used for input validation.
pub const ALL_MENUS: &'static [&'static str; 12] = &[
    "dashboard",
    "flow",
    "jobs",
    "performance",
    "usage",
    "test",
    "providers",
    "servers",
    "keys",
    "accounts",
    "audit",
    "api_docs",
];

// ── Job / API enums ──────────────────────────────────────────────────────────

/// Origin of an inference job.
#[derive(Debug, Clone, Copy, PartialEq, Eq, Structural)]
pub enum JobSource {
    Api,
    Test,
    Analyzer,
}

impl JobSource {
    pub open spec fn name(self) -> Seq<char> {
        match self {
            JobSource::Api => "api"@,
            JobSource::Test => "test"@,
            JobSource::Analyzer => "analyzer"@,
        }
    }

    pub open spec fn from_name(s: Seq<char>) -> Option<JobSource> {
        if s == "api"@ {
            Some(JobSource::Api)
        } else if s == "test"@ {
            Some(JobSource::Test)
        } else if s == "analyzer"@ {
            Some(JobSource::Analyzer)
        } else {
            None
        }
    }

    pub fn as_str(&self) -> (r: &'static str)
        ensures
            r@ == self.name(),
    {
        match self {
            JobSource::Api => "api",
            JobSource::Test => "test",
            JobSource::Analyzer => "analyzer",
        }
    }

    /// Parses the wire name; the error message names the rejected input.
    pub fn parse_str(s: &str) -> (r: Result<JobSource, String>)
        ensures
            match r {
                Ok(x) => JobSource::from_name(s@) == Some(x),
                Err(e) => JobSource::from_name(s@) is None && e@ == "invalid job source: "@ + s@,
            },
    {
        let t = s;
        if str_eq(t, "api") {
            Ok(JobSource::Api)
        } else if str_eq(t, "test") {
            Ok(JobSource::Test)
        } else if str_eq(t, "analyzer") {
            Ok(JobSource::Analyzer)
        } else {
            Err(concat2("invalid job source: ", t))
        }
    }

}

impl std::str::FromStr for JobSource {
    type Err = String;

    fn from_str(s: &str) -> (r: Result<JobSource, String>)
        ensures
            match r {
                Ok(x) => JobSource::from_name(s@) == Some(x),
                Err(e) => JobSource::from_name(s@) is None && e@ == "invalid job source: "@ + s@,
            },
    {
        JobSource::parse_str(s)
    }
}

/// Parsing the wire name of a value gives the value back, and only its
/// wire name parses to it.
pub proof fn lemma_job_source_roundtrip(x: JobSource)
    ensures
        JobSource::from_name(x.name()) == Some(x),
        forall|s: Seq<char>| JobSource::from_name(s) == Some(x) ==> s == x.name(),
{
    reveal_strlit("api");
    reveal_strlit("test");
    reveal_strlit("analyzer");
    assert("api"@.len() != "test"@.len());
    assert("api"@.len() != "analyzer"@.len());
    assert("test"@.len() != "analyzer"@.len());
}

impl Default for JobSource {
    fn default() -> (r: JobSource)
        ensures
            r == JobSource::Api,
    {
        JobSource::Api
    }
}

/// Which API format the inbound request arrived via (the matched route).
#[derive(Debug, Clone, Copy, PartialEq, Eq, Structural)]
pub enum ApiFormat {
    OpenaiCompat,
    OllamaNative,
    GeminiNative,
    VeronexNative,
}

impl ApiFormat {
    pub open spec fn name(self) -> Seq<char> {
        match self {
            ApiFormat::OpenaiCompat => "openai_compat"@,
            ApiFormat::OllamaNative => "ollama_native"@,
            ApiFormat::GeminiNative => "gemini_native"@,
            ApiFormat::VeronexNative => "veronex_native"@,
        }
    }

    pub open spec fn from_name(s: Seq<char>) -> Option<ApiFormat> {
        if s == "openai_compat"@ {
            Some(ApiFormat::OpenaiCompat)
        } else if s == "ollama_native"@ {
            Some(ApiFormat::OllamaNative)
        } else if s == "gemini_native"@ {
            Some(ApiFormat::GeminiNative)
        } else if s == "veronex_native"@ {
            Some(ApiFormat::VeronexNative)
        } else {
            None
        }
    }

    pub fn as_str(&self) -> (r: &'static str)
        ensures
            r@ == self.name(),
    {
        match self {
            ApiFormat::OpenaiCompat => "openai_compat",
            ApiFormat::OllamaNative => "ollama_native",
            ApiFormat::GeminiNative => "gemini_native",
            ApiFormat::VeronexNative => "veronex_native",
        }
    }

    /// Parses the wire name; the error message names the rejected input.
    pub fn parse_str(s: &str) -> (r: Result<ApiFormat, String>)
        ensures
            match r {
                Ok(x) => ApiFormat::from_name(s@) == Some(x),
                Err(e) => ApiFormat::from_name(s@) is None && e@ == "unknown ApiFormat: "@ + s@,
            },
    {
        let t = s;
        if str_eq(t, "openai_compat") {
            Ok(ApiFormat::OpenaiCompat)
        } else if str_eq(t, "ollama_native") {
            Ok(ApiFormat::OllamaNative)
        } else if str_eq(t, "gemini_native") {
            Ok(ApiFormat::GeminiNative)
        } else if str_eq(t, "veronex_native") {
            Ok(ApiFormat::VeronexNative)
        } else {
            Err(concat2("unknown ApiFormat: ", t))
        }
    }

}

impl std::str::FromStr for ApiFormat {
    type Err = String;

    fn from_str(s: &str) -> (r: Result<ApiFormat, String>)
        ensures
            match r {
                Ok(x) => ApiFormat::from_name(s@) == Some(x),
                Err(e) => ApiFormat::from_name(s@) is None && e@ == "unknown ApiFormat: "@ + s@,
            },
    {
        ApiFormat::parse_str(s)
    }
}

/// Parsing the wire name of a value gives the value back, and only its
/// wire name parses to it.
pub proof fn lemma_api_format_roundtrip(x: ApiFormat)
    ensures
        ApiFormat::from_name(x.name()) == Some(x),
        forall|s: Seq<char>| ApiFormat::from_name(s) == Some(x) ==> s == x.name(),
{
    reveal_strlit("openai_compat");
    reveal_strlit("ollama_native");
    reveal_strlit("gemini_native");
    reveal_strlit("veronex_native");
    assert("openai_compat"@[1] != "ollama_native"@[1]);
    assert("openai_compat"@[0] != "gemini_native"@[0]);
    assert("openai_compat"@.len() != "veronex_native"@.len());
    assert("ollama_native"@[0] != "gemini_native"@[0]);
    assert("ollama_native"@.len() != "veronex_native"@.len());
    assert("gemini_native"@.len() != "veronex_native"@.len());
}

impl Default for ApiFormat {
    fn default() -> (r: ApiFormat)
        ensures
            r == ApiFormat::OpenaiCompat,
    {
        ApiFormat::OpenaiCompat
    }
}

/// Kind of backend provider.
#[derive(Debug, Clone, Copy, PartialEq, Eq, Structural, Hash)]
pub enum ProviderType {
    Ollama,
    Gemini,
    Whisper,
}

impl ProviderType {
    pub open spec fn name(self) -> Seq<char> {
        match self {
            ProviderType::Ollama => "ollama"@,
            ProviderType::Gemini => "gemini"@,
            ProviderType::Whisper => "whisper"@,
        }
    }

    pub open spec fn from_name(s: Seq<char>) -> Option<ProviderType> {
        if s == "ollama"@ {
            Some(ProviderType::Ollama)
        } else if s == "gemini"@ {
            Some(ProviderType::Gemini)
        } else if s == "whisper"@ {
            Some(ProviderType::Whisper)
        } else {
            None
        }
    }

    pub fn as_str(&self) -> (r: &'static str)
        ensures
            r@ == self.name(),
    {
        match self {
            ProviderType::Ollama => "ollama",
            ProviderType::Gemini => "gemini",
            ProviderType::Whisper => "whisper",
        }
    }

    /// Parses the wire name; the error message names the rejected input.
    pub fn parse_str(s: &str) -> (r: Result<ProviderType, String>)
        ensures
            match r {
                Ok(x) => ProviderType::from_name(s@) == Some(x),
                Err(e) => ProviderType::from_name(s@) is None && e@ == "unknown provider type: "@ + s@,
            },
    {
        let t = s;
        if str_eq(t, "ollama") {
            Ok(ProviderType::Ollama)
        } else if str_eq(t, "gemini") {
            Ok(ProviderType::Gemini)
        } else if str_eq(t, "whisper") {
            Ok(ProviderType::Whisper)
        } else {
            Err(concat2("unknown provider type: ", t))
        }
    }

    pub open spec fn resource_name(self) -> Seq<char> {
        match self {
            ProviderType::Ollama => "ollama_provider"@,
            ProviderType::Gemini => "gemini_provider"@,
            ProviderType::Whisper => "whisper_provider"@,
        }
    }

    /// Audit trail resource type string for this provider type.
    pub fn resource_type(&self) -> (r: &'static str)
        ensures
            r@ == self.resource_name(),
    {
        match self {
            ProviderType::Ollama => "ollama_provider",
            ProviderType::Gemini => "gemini_provider",
            ProviderType::Whisper => "whisper_provider",
        }
    }
}

impl std::str::FromStr for ProviderType {
    type Err = String;

    fn from_str(s: &str) -> (r: Result<ProviderType, String>)
        ensures
            match r {
                Ok(x) => ProviderType::from_name(s@) == Some(x),
                Err(e) => ProviderType::from_name(s@) is None && e@ == "unknown provider type: "@ + s@,
            },
    {
        ProviderType::parse_str(s)
    }
}

/// Parsing the wire name of a value gives the value back, and only its
/// wire name parses to it.
pub proof fn lemma_provider_type_roundtrip(x: ProviderType)
    ensures
        ProviderType::from_name(x.name()) == Some(x),
        forall|s: Seq<char>| ProviderType::from_name(s) == Some(x) ==> s == x.name(),
{
    reveal_strlit("ollama");
    reveal_strlit("gemini");
    reveal_strlit("whisper");
    assert("ollama"@[0] != "gemini"@[0]);
    assert("ollama"@.len() != "whisper"@.len());
    assert("gemini"@.len() != "whisper"@.len());
}

/// Why a generation stopped.
#[derive(Debug, Clone, Copy, PartialEq, Eq, Structural)]
pub enum FinishReason {
    Stop,
    Length,
    Cancelled,
    Error,
}

impl FinishReason {
    pub open spec fn name(self) -> Seq<char> {
        match self {
            FinishReason::Stop => "stop"@,
            FinishReason::Length => "length"@,
            FinishReason::Cancelled => "cancelled"@,
            FinishReason::Error => "error"@,
        }
    }

    pub fn as_str(&self) -> (r: &'static str)
        ensures
            r@ == self.name(),
    {
        match self {
            FinishReason::Stop => "stop",
            FinishReason::Length => "length",
            FinishReason::Cancelled => "cancelled",
            FinishReason::Error => "error",
        }
    }


}

/// Lifecycle status of an inference job.
#[derive(Debug, Clone, Copy, PartialEq, Eq, Structural)]
pub enum JobStatus {
    Pending,
    Running,
    Completed,
    Failed,
    Cancelled,
}

impl JobStatus {
    pub open spec fn name(self) -> Seq<char> {
        match self {
            JobStatus::Pending => "pending"@,
            JobStatus::Running => "running"@,
            JobStatus::Completed => "completed"@,
            JobStatus::Failed => "failed"@,
            JobStatus::Cancelled => "cancelled"@,
        }
    }

    pub open spec fn from_name(s: Seq<char>) -> Option<JobStatus> {
        if s == "pending"@ {
            Some(JobStatus::Pending)
        } else if s == "running"@ {
            Some(JobStatus::Running)
        } else if s == "completed"@ {
            Some(JobStatus::Completed)
        } else if s == "failed"@ {
            Some(JobStatus::Failed)
        } else if s == "cancelled"@ {
            Some(JobStatus::Cancelled)
        } else {
            None
        }
    }

    pub fn as_str(&self) -> (r: &'static str)
        ensures
            r@ == self.name(),
    {
        match self {
            JobStatus::Pending => "pending",
            JobStatus::Running => "running",
            JobStatus::Completed => "completed",
            JobStatus::Failed => "failed",
            JobStatus::Cancelled => "cancelled",
        }
    }

    /// Parses the wire name; the error message names the rejected input.
    pub fn parse_str(s: &str) -> (r: Result<JobStatus, String>)
        ensures
            match r {
                Ok(x) => JobStatus::from_name(s@) == Some(x),
                Err(e) => JobStatus::from_name(s@) is None && e@ == "unknown job status: "@ + s@,
            },
    {
        let t = s;
        if str_eq(t, "pending") {
            Ok(JobStatus::Pending)
        } else if str_eq(t, "running") {
            Ok(JobStatus::Running)
        } else if str_eq(t, "completed") {
            Ok(JobStatus::Completed)
        } else if str_eq(t, "failed") {
            Ok(JobStatus::Failed)
        } else if str_eq(t, "cancelled") {
            Ok(JobStatus::Cancelled)
        } else {
            Err(concat2("unknown job status: ", t))
        }
    }

}

impl std::str::FromStr for JobStatus {
    type Err = String;

    fn from_str(s: &str) -> (r: Result<JobStatus, String>)
        ensures
            match r {
                Ok(x) => JobStatus::from_name(s@) == Some(x),
                Err(e) => JobStatus::from_name(s@) is None && e@ == "unknown job status: "@ + s@,
            },
    {
        JobStatus::parse_str(s)
    }
}

/// Parsing the wire name of a value gives the value back, and only its
/// wire name parses to it.
pub proof fn lemma_job_status_roundtrip(x: JobStatus)
    ensures
        JobStatus::from_name(x.name()) == Some(x),
        forall|s: Seq<char>| JobStatus::from_name(s) == Some(x) ==> s == x.name(),
{
    reveal_strlit("pending");
    reveal_strlit("running");
    reveal_strlit("completed");
    reveal_strlit("failed");
    reveal_strlit("cancelled");
    assert("pending"@[0] != "running"@[0]);
    assert("pending"@.len() != "completed"@.len());
    assert("pending"@.len() != "failed"@.len());
    assert("pending"@.len() != "cancelled"@.len());
    assert("running"@.len() != "completed"@.len());
    assert("running"@.len() != "failed"@.len());
    assert("running"@.len() != "cancelled"@.len());
    assert("completed"@.len() != "failed"@.len());
    assert("completed"@[1] != "cancelled"@[1]);
    assert("failed"@.len() != "cancelled"@.len());
}

/// Liveness status of a provider.
#[derive(Debug, Clone, Copy, PartialEq, Eq, Structural)]
pub enum LlmProviderStatus {
    Online,
    Offline,
    Degraded,
}

impl LlmProviderStatus {
    pub open spec fn name(self) -> Seq<char> {
        match self {
            LlmProviderStatus::Online => "online"@,
            LlmProviderStatus::Offline => "offline"@,
            LlmProviderStatus::Degraded => "degraded"@,
        }
    }

    pub fn as_str(&self) -> (r: &'static str)
        ensures
            r@ == self.name(),
    {
        match self {
            LlmProviderStatus::Online => "online",
            LlmProviderStatus::Offline => "offline",
            LlmProviderStatus::Degraded => "degraded",
        }
    }


}

/// Five-level thermal throttling state for GPU/APU providers.
#[derive(Debug, Clone, Copy, PartialEq, Eq, Structural)]
pub enum ThrottleLevel {
    /// Temperature below the normal threshold: full concurrency.
    Normal,
    /// Soft threshold reached: new requests blocked.
    Soft,
    /// Hard threshold reached: everything blocked, forced drain.
    Hard,
    /// After Hard: waiting for the hardware to cool down.
    Cooldown,
    /// After Cooldown: restoring gradually with concurrency one.
    RampUp,
}

// ── API key enums ───────────────────────────────────────────────────────────

/// Billing tier for an API key.
#[derive(Debug, Clone, Copy, PartialEq, Eq, Structural)]
pub enum KeyTier {
    Free,
    Paid,
}

impl KeyTier {
    pub open spec fn name(self) -> Seq<char> {
        match self {
            KeyTier::Free => "free"@,
            KeyTier::Paid => "paid"@,
        }
    }

    pub open spec fn from_name(s: Seq<char>) -> Option<KeyTier> {
        if s == "free"@ {
            Some(KeyTier::Free)
        } else if s == "paid"@ {
            Some(KeyTier::Paid)
        } else {
            None
        }
    }

    pub fn as_str(&self) -> (r: &'static str)
        ensures
            r@ == self.name(),
    {
        match self {
            KeyTier::Free => "free",
            KeyTier::Paid => "paid",
        }
    }

    /// Parses the wire name (ASCII case-insensitive); the error message names the rejected input in lowercase.
    pub fn parse_str(s: &str) -> (r: Result<KeyTier, String>)
        ensures
            match r {
                Ok(x) => KeyTier::from_name(lower(s@)) == Some(x),
                Err(e) => KeyTier::from_name(lower(s@)) is None && e@ == "invalid tier: "@ + lower(s@),
            },
    {
        let l = to_ascii_lower(s);
        let t = l.as_str();
        if str_eq(t, "free") {
            Ok(KeyTier::Free)
        } else if str_eq(t, "paid") {
            Ok(KeyTier::Paid)
        } else {
            Err(concat2("invalid tier: ", t))
        }
    }

}

impl std::str::FromStr for KeyTier {
    type Err = String;

    fn from_str(s: &str) -> (r: Result<KeyTier, String>)
        ensures
            match r {
                Ok(x) => KeyTier::from_name(lower(s@)) == Some(x),
                Err(e) => KeyTier::from_name(lower(s@)) is None && e@ == "invalid tier: "@ + lower(s@),
            },
    {
        KeyTier::parse_str(s)
    }
}

/// Parsing the wire name of a value gives the value back, and only its
/// wire name (up to ASCII case) parses to it.
pub proof fn lemma_key_tier_roundtrip(x: KeyTier)
    ensures
        KeyTier::from_name(lower(x.name())) == Some(x),
        forall|s: Seq<char>| KeyTier::from_name(lower(s)) == Some(x) ==> lower(s) == x.name(),
{
    reveal_strlit("free");
    reveal_strlit("paid");
    assert("free"@[0] != "paid"@[0]);
    assert(lower("free"@) =~= "free"@);
    assert(lower("paid"@) =~= "paid"@);
}

impl Default for KeyTier {
    fn default() -> (r: KeyTier)
        ensures
            r == KeyTier::Paid,
    {
        KeyTier::Paid
    }
}

/// API key category: production or test.
#[derive(Debug, Clone, PartialEq, Eq, Structural)]
pub enum KeyType {
    Standard,
    Test,
}

impl KeyType {
    pub open spec fn name(self) -> Seq<char> {
        match self {
            KeyType::Standard => "standard"@,
            KeyType::Test => "test"@,
        }
    }

    pub open spec fn from_name(s: Seq<char>) -> Option<KeyType> {
        if s == "standard"@ {
            Some(KeyType::Standard)
        } else if s == "test"@ {
            Some(KeyType::Test)
        } else {
            None
        }
    }

    pub fn as_str(&self) -> (r: &'static str)
        ensures
            r@ == self.name(),
    {
        match self {
            KeyType::Standard => "standard",
            KeyType::Test => "test",
        }
    }

    /// Parses the wire name (ASCII case-insensitive); the error message names the rejected input in lowercase.
    pub fn parse_str(s: &str) -> (r: Result<KeyType, String>)
        ensures
            match r {
                Ok(x) => KeyType::from_name(lower(s@)) == Some(x),
                Err(e) => KeyType::from_name(lower(s@)) is None && e@ == "invalid key_type: "@ + lower(s@),
            },
    {
        let l = to_ascii_lower(s);
        let t = l.as_str();
        if str_eq(t, "standard") {
            Ok(KeyType::Standard)
        } else if str_eq(t, "test") {
            Ok(KeyType::Test)
        } else {
            Err(concat2("invalid key_type: ", t))
        }
    }

    pub open spec fn spec_is_test(self) -> bool {
        self == KeyType::Test
    }

    pub fn is_test(&self) -> (r: bool)
        ensures
            r == self.spec_is_test(),
    {
        match self {
            KeyType::Test => true,
            KeyType::Standard => false,
        }
    }
}

impl std::str::FromStr for KeyType {
    type Err = String;

    fn from_str(s: &str) -> (r: Result<KeyType, String>)
        ensures
            match r {
                Ok(x) => KeyType::from_name(lower(s@)) == Some(x),
                Err(e) => KeyType::from_name(lower(s@)) is None && e@ == "invalid key_type: "@ + lower(s@),
            },
    {
        KeyType::parse_str(s)
    }
}

/// Parsing the wire name of a value gives the value back, and only its
/// wire name (up to ASCII case) parses to it.
pub proof fn lemma_key_type_roundtrip(x: KeyType)
    ensures
        KeyType::from_name(lower(x.name())) == Some(x),
        forall|s: Seq<char>| KeyType::from_name(lower(s)) == Some(x) ==> lower(s) == x.name(),
{
    reveal_strlit("standard");
    reveal_strlit("test");
    assert("standard"@.len() != "test"@.len());
    assert(lower("standard"@) =~= "standard"@);
    assert(lower("test"@) =~= "test"@);
}

impl Default for KeyType {
    fn default() -> (r: KeyType)
        ensures
            r == KeyType::Standard,
    {
        KeyType::Standard
    }
}

} // verus!
