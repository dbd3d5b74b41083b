//! Validated value objects and the model-instance lifecycle.

use vstd::prelude::*;
use vstd::string::*;

use crate::domain::errors::DomainError;
use crate::json::Json;
use crate::text::{contains_char, has_prefix, is_alnum, owned, starts_with};

verus! {

/// `std::time::SystemTime`, carried through lifecycle states as an opaque instant.
#[verifier::external_type_specification]
#[verifier::external_body]
pub struct ExSystemTime(std::time::SystemTime);

/// Lightweight event fired on every job status transition.
#[derive(Debug, Clone, PartialEq, Eq)]
pub struct JobStatusEvent {
    pub id: String,
    pub status: String,
    pub model_name: String,
    pub provider_type: String,
    pub latency_ms: Option<i32>,
}

/// Real-time aggregate stats pushed to every dashboard client each second.
#[derive(Debug, Clone, Copy, PartialEq, Eq, Structural)]
pub struct FlowStats {
    /// Enqueue events in the last 10 seconds.
    pub incoming: u32,
    /// Enqueue events in the last 60 seconds.
    pub incoming_60s: u32,
    /// Jobs currently waiting in the queue.
    pub queued: u32,
    /// Jobs currently being processed by a provider.
    pub running: u32,
    /// Jobs that reached a terminal status in the last 60 seconds.
    pub completed: u32,
}

impl Default for FlowStats {
    fn default() -> (r: FlowStats)
        ensures
            r == (FlowStats { incoming: 0, incoming_60s: 0, queued: 0, running: 0, completed: 0 }),
    {
        FlowStats { incoming: 0, incoming_60s: 0, queued: 0, running: 0, completed: 0 }
    }
}

/// A non-empty model name.
#[derive(Debug, Clone, PartialEq, Eq)]
pub struct ModelName(String);

impl View for ModelName {
    type V = Seq<char>;

    closed spec fn view(&self) -> Seq<char> {
        self.0@
    }
}

impl ModelName {
    pub fn new(s: &str) -> (r: Result<ModelName, DomainError>)
        ensures
            match r {
                Ok(m) => s@.len() > 0 && m@ == s@,
                Err(e) => s@.len() == 0 && e.is_validation("model name cannot be empty"@),
            },
    {
        if s.unicode_len() == 0 {
            return Err(DomainError::Validation(owned("model name cannot be empty")));
        }
        Ok(ModelName(owned(s)))
    }

    pub fn as_str(&self) -> (r: &str)
        ensures
            r@ == self@,
    {
        self.0.as_str()
    }
}


/// A non-empty prompt.
#[derive(Debug, Clone, PartialEq, Eq)]
pub struct Prompt(String);

impl View for Prompt {
    type V = Seq<char>;

    closed spec fn view(&self) -> Seq<char> {
        self.0@
    }
}

impl Prompt {
    pub fn new(s: &str) -> (r: Result<Prompt, DomainError>)
        ensures
            match r {
                Ok(p) => s@.len() > 0 && p@ == s@,
                Err(e) => s@.len() == 0 && e.is_validation("prompt cannot be empty"@),
            },
    {
        if s.unicode_len() == 0 {
            return Err(DomainError::Validation(owned("prompt cannot be empty")));
        }
        Ok(Prompt(owned(s)))
    }

    pub fn as_str(&self) -> (r: &str)
        ensures
            r@ == self@,
    {
        self.0.as_str()
    }
}

/// Characters allowed in a username.
pub open spec fn username_char(c: char) -> bool {
    is_alnum(c) || c == '_' || c == '-'
}

/// The validation outcome for a username: `None` when accepted, otherwise the
/// message of the first rule it breaks.
pub open spec fn username_problem(s: &str) -> Option<Seq<char>> {
    if s@.len() == 0 {
        Some("username cannot be empty"@)
    } else if s.len() > 255 {
        Some("username exceeds 255 characters"@)
    } else if !(forall|i: int| 0 <= i < s@.len() ==> username_char(#[trigger] s@[i])) {
        Some("username must contain only alphanumeric characters, underscores, or hyphens"@)
    } else {
        None
    }
}

/// Whether every character of `s` is allowed in a username.
pub fn all_username_chars(s: &str) -> (r: bool)
    ensures
        r == forall|i: int| 0 <= i < s@.len() ==> username_char(#[trigger] s@[i]),
{
    let n = s.unicode_len();
    let mut i: usize = 0;
    while i < n
        invariant
            n == s@.len(),
            i <= n,
            forall|j: int| 0 <= j < i ==> username_char(#[trigger] s@[j]),
        decreases n - i,
    {
        let c = s.get_char(i);
        if !(('a' <= c && c <= 'z') || ('A' <= c && c <= 'Z') || ('0' <= c && c <= '9') || c == '_'
            || c == '-') {
            assert(!username_char(s@[i as int]));
            return false;
        }
        i += 1;
    }
    true
}

/// A validated account username: 1..=255 bytes of ASCII letters, digits, `_` or `-`.
#[derive(Debug, Clone, PartialEq, Eq)]
pub struct Username(String);

impl View for Username {
    type V = Seq<char>;

    closed spec fn view(&self) -> Seq<char> {
        self.0@
    }
}

impl Username {
    pub fn new(s: &str) -> (r: Result<Username, DomainError>)
        ensures
            match r {
                Ok(u) => username_problem(s) is None && u@ == s@,
                Err(e) => username_problem(s) matches Some(m) && e.is_validation(m),
            },
    {
        if s.unicode_len() == 0 {
            return Err(DomainError::Validation(owned("username cannot be empty")));
        }
        if s.len() > 255 {
            return Err(DomainError::Validation(owned("username exceeds 255 characters")));
        }
        if !all_username_chars(s) {
            return Err(
                DomainError::Validation(
                    owned(
                        "username must contain only alphanumeric characters, underscores, or hyphens",
                    ),
                ),
            );
        }
        Ok(Username(owned(s)))
    }

    pub fn as_str(&self) -> (r: &str)
        ensures
            r@ == self@,
    {
        self.0.as_str()
    }
}

/// The validation outcome for an email address.
pub open spec fn email_problem(s: &str) -> Option<Seq<char>> {
    if !s@.contains('@') {
        Some("email must contain '@'"@)
    } else if s.len() > 254 {
        Some("email exceeds 254 characters"@)
    } else {
        None
    }
}

/// An email address: contains `@`, at most 254 bytes.
#[derive(Debug, Clone, PartialEq, Eq)]
pub struct Email(String);

impl View for Email {
    type V = Seq<char>;

    closed spec fn view(&self) -> Seq<char> {
        self.0@
    }
}

impl Email {
    pub fn new(s: &str) -> (r: Result<Email, DomainError>)
        ensures
            match r {
                Ok(x) => email_problem(s) is None && x@ == s@,
                Err(e) => email_problem(s) matches Some(m) && e.is_validation(m),
            },
    {
        if !contains_char(s, '@') {
            return Err(DomainError::Validation(owned("email must contain '@'")));
        }
        if s.len() > 254 {
            return Err(DomainError::Validation(owned("email exceeds 254 characters")));
        }
        Ok(Email(owned(s)))
    }

    pub fn as_str(&self) -> (r: &str)
        ensures
            r@ == self@,
    {
        self.0.as_str()
    }
}

/// The URL of a provider: must use the `http://` or `https://` scheme.
#[derive(Debug, Clone, PartialEq, Eq)]
pub struct ProviderUrl(String);

impl View for ProviderUrl {
    type V = Seq<char>;

    closed spec fn view(&self) -> Seq<char> {
        self.0@
    }
}

/// `s` starts with an HTTP or HTTPS scheme.
pub open spec fn has_http_scheme(s: Seq<char>) -> bool {
    has_prefix(s, "http://"@) || has_prefix(s, "https://"@)
}

impl ProviderUrl {
    pub fn new(s: &str) -> (r: Result<ProviderUrl, DomainError>)
        ensures
            match r {
                Ok(u) => has_http_scheme(s@) && u@ == s@,
                Err(e) => !has_http_scheme(s@) && e.is_validation(
                    "provider URL must start with http:// or https://"@,
                ),
            },
    {
        if !(starts_with(s, "http://") || starts_with(s, "https://")) {
            return Err(
                DomainError::Validation(owned("provider URL must start with http:// or https://")),
            );
        }
        Ok(ProviderUrl(owned(s)))
    }

    pub fn as_str(&self) -> (r: &str)
        ensures
            r@ == self@,
    {
        self.0.as_str()
    }
}

/// Result of the vision pre-processing call for an image-bearing turn.
#[derive(Debug, Clone, PartialEq, Eq)]
pub struct VisionAnalysis {
    /// Image analysis text produced by the vision model.
    pub analysis: String,
    /// Model used for the analysis.
    pub vision_model: String,
    /// Number of images analyzed.
    pub image_count: u32,
    /// Token count of the analysis output.
    pub analysis_tokens: u32,
}

// ── Model instance lifecycle ─────────────────────────────────────────────────

/// Why a loaded model left VRAM.
#[derive(Debug, Clone, Copy, PartialEq, Eq, Structural)]
pub enum EvictionReason {
    /// The runtime unloaded the model to make room for another.
    VramPressure,
    /// The keep-alive period expired.
    KeepAliveExpired,
    /// Explicit operator action.
    Operator,
    /// Cleanup after a failed load attempt.
    LoadFailed,
}

/// Lifecycle state of one model on one provider.
#[allow(inconsistent_fields)]
#[derive(Debug)]
pub enum ModelInstanceState {
    NotLoaded,
    Loading { started_at: std::time::SystemTime, last_progress_at: std::time::SystemTime },
    Loaded { loaded_at: std::time::SystemTime, weight_bytes: u64 },
    Failed {
        failed_at: std::time::SystemTime,
        reason: String,
        retry_after: std::time::SystemTime,
    },
    Evicted { evicted_at: std::time::SystemTime, reason: EvictionReason },
}

/// The lifecycle transition relation:
/// NotLoaded → Loading | Failed; Loading → Loaded | Failed; Loaded → Evicted;
/// Failed → Loading; Evicted → NotLoaded | Loading.
pub open spec fn transition_allowed(from: ModelInstanceState, to: ModelInstanceState) -> bool {
    ||| (from is NotLoaded && to is Loading)
    ||| (from is NotLoaded && to is Failed)
    ||| (from is Loading && to is Loaded)
    ||| (from is Loading && to is Failed)
    ||| (from is Loaded && to is Evicted)
    ||| (from is Failed && to is Loading)
    ||| (from is Evicted && to is NotLoaded)
    ||| (from is Evicted && to is Loading)
}

impl ModelInstanceState {
    /// Whether `self` may move to `next`; callers check this before persisting a state.
    pub fn can_transition_to(&self, next: &ModelInstanceState) -> (r: bool)
        ensures
            r == transition_allowed(*self, *next),
    {
        match (self, next) {
            (ModelInstanceState::NotLoaded, ModelInstanceState::Loading { .. }) => true,
            (ModelInstanceState::NotLoaded, ModelInstanceState::Failed { .. }) => true,
            (ModelInstanceState::Loading { .. }, ModelInstanceState::Loaded { .. }) => true,
            (ModelInstanceState::Loading { .. }, ModelInstanceState::Failed { .. }) => true,
            (ModelInstanceState::Loaded { .. }, ModelInstanceState::Evicted { .. }) => true,
            (ModelInstanceState::Failed { .. }, ModelInstanceState::Loading { .. }) => true,
            (ModelInstanceState::Evicted { .. }, ModelInstanceState::NotLoaded) => true,
            (ModelInstanceState::Evicted { .. }, ModelInstanceState::Loading { .. }) => true,
            _ => false,
        }
    }
}

/// A loaded model can only leave the Loaded state through Evicted, so the
/// eviction reason is never lost.
pub proof fn lemma_loaded_leaves_only_via_evicted(from: ModelInstanceState, to: ModelInstanceState)
    requires
        from is Loaded,
        transition_allowed(from, to),
    ensures
        to is Evicted,
{
}

/// No state may transition to a state of its own kind.
pub proof fn lemma_no_self_transition(from: ModelInstanceState, to: ModelInstanceState)
    requires
        transition_allowed(from, to),
    ensures
        !(from is NotLoaded && to is NotLoaded),
        !(from is Loading && to is Loading),
        !(from is Loaded && to is Loaded),
        !(from is Failed && to is Failed),
        !(from is Evicted && to is Evicted),
{
}

/// Every state that is not Loaded, Loading or Failed can start a load, and a
/// failed or loading model can reach Loaded through Loading.
pub proof fn lemma_loaded_reachable(from: ModelInstanceState, loading: ModelInstanceState, loaded: ModelInstanceState)
    requires
        loading is Loading,
        loaded is Loaded,
    ensures
        (from is NotLoaded || from is Failed || from is Evicted) ==> transition_allowed(from, loading),
        transition_allowed(loading, loaded),
{
}

/// Every documented lifecycle move is allowed: a model that is not loaded
/// may start loading or be marked failed; a load may finish (Loaded) or
/// fail (Failed); a loaded model may be evicted; a failed model may be
/// loaded again; an evicted model may be forgotten or loaded again.
pub proof fn lemma_documented_moves_allowed(from: ModelInstanceState, to: ModelInstanceState)
    ensures
        from is NotLoaded && (to is Loading || to is Failed) ==> transition_allowed(from, to),
        from is Loading && (to is Loaded || to is Failed) ==> transition_allowed(from, to),
        from is Loaded && to is Evicted ==> transition_allowed(from, to),
        from is Failed && to is Loading ==> transition_allowed(from, to),
        from is Evicted && (to is NotLoaded || to is Loading) ==> transition_allowed(from, to),
{
}

/// A load that fails is recorded as Failed and can then be retried: from
/// any Loading state the model may move to any Failed state, and from there
/// back to any Loading state.
pub proof fn lemma_failed_load_can_retry(
    loading: ModelInstanceState,
    failed: ModelInstanceState,
    retry: ModelInstanceState,
)
    requires
        loading is Loading,
        failed is Failed,
        retry is Loading,
    ensures
        transition_allowed(loading, failed),
        transition_allowed(failed, retry),
{
}

/// One item of a job's token stream.
#[derive(Debug)]
pub struct StreamToken {
    pub value: String,
    pub is_final: bool,
    /// Prompt tokens reported by the provider (final token only).
    pub prompt_tokens: Option<u32>,
    /// Completion tokens reported by the provider (final token only).
    pub completion_tokens: Option<u32>,
    /// Tokens served from a provider-side cache (final token only).
    pub cached_tokens: Option<u32>,
    /// Tool calls returned by the model, in Ollama `/api/chat` form; a token
    /// carrying them carries no text.
    pub tool_calls: Option<Json>,
    /// Finish reason (final token only).
    pub finish_reason: Option<String>,
}

impl StreamToken {
    /// An intermediate text token.
    pub fn text(value: String) -> (r: StreamToken)
        ensures
            r.value == value,
            !r.is_final,
            r.prompt_tokens is None && r.completion_tokens is None && r.cached_tokens is None,
            r.tool_calls is None && r.finish_reason is None,
    {
        StreamToken {
            value,
            is_final: false,
            prompt_tokens: None,
            completion_tokens: None,
            cached_tokens: None,
            tool_calls: None,
            finish_reason: None,
        }
    }

    /// A bare final token.
    pub fn done() -> (r: StreamToken)
        ensures
            r.value@ == Seq::<char>::empty(),
            r.is_final,
            r.prompt_tokens is None && r.completion_tokens is None && r.cached_tokens is None,
            r.tool_calls is None && r.finish_reason is None,
    {
        StreamToken {
            value: String::new(),
            is_final: true,
            prompt_tokens: None,
            completion_tokens: None,
            cached_tokens: None,
            tool_calls: None,
            finish_reason: None,
        }
    }
}

} // verus!
