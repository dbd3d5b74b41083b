//! Checks and plans of the administration endpoints: provider
//! registration, MCP server registration and updates, and account
//! creation.
//!
//! Database lookups and network calls happen between the steps; each step
//! takes what they returned.

use vstd::prelude::*;
use vstd::string::*;

use crate::domain::entities::{Account, ApiKey};
use crate::domain::enums::{KeyTier, KeyType, LlmProviderStatus, ProviderType};
use crate::domain::services::GeneratedApiKey;
use crate::http::error::AppError;
use crate::json::{as_str_of, field, get_field, str_of, Json};
use crate::http::inference::byte_len;
use crate::http::provider::{
    bare_host, blocked_address, check_provider_address, host_cut_ok, http_scheme, provider_url_host, url_host_cut_ok,
    IpAddress,
    ERR_METADATA_ENDPOINT, ERR_PROVIDER_SCHEME, METADATA_HOST,
};
use crate::http::validation::{parse_provider_type, provider_type_named, slug_problem, validate_slug};
use crate::text::{concat2, contains, contains_seq, starts_with, str_eq, trim, trim_str, unicode_lowercase};

verus! {

/// `e` is `400` with message `msg`.
pub open spec fn bad_request(e: AppError, msg: Seq<char>) -> bool {
    e matches AppError::BadRequest(m) && m@ == msg
}

// ── Provider registration ────────────────────────────────────────────────────

/// What registering a provider does next.
#[derive(Debug, Clone, PartialEq, Eq)]
pub enum ProviderRegistration {
    /// An Ollama provider: check that this host is not a metadata address
    /// and that no Ollama provider has this URL, then register it.
    Ollama { url_host: String },
    /// A Gemini provider with an API key: register it.
    Gemini,
    /// A Whisper provider: register it.
    Whisper,
}

/// What the first step of `POST /v1/providers` answers for these fields.
pub open spec fn provider_registration_answer(
    provider_type: Seq<char>,
    url: Option<Seq<char>>,
    api_key: Option<Seq<char>>,
    r: Result<ProviderRegistration, AppError>,
) -> bool {
    match provider_type_named(unicode_lowercase(provider_type)) {
        None => r matches Err(e) && bad_request(e, "provider_type must be 'ollama' or 'gemini'"@),
        Some(ProviderType::Ollama) => match url {
            None => r matches Err(e) && bad_request(e, "url is required for ollama providers"@),
            Some(u) => if u.len() == 0 {
                r matches Err(e) && bad_request(e, "url is required for ollama providers"@)
            } else if !http_scheme(u) {
                r matches Err(e) && bad_request(e, ERR_PROVIDER_SCHEME@)
            } else if contains_seq(u, METADATA_HOST@) {
                r matches Err(e) && bad_request(e, ERR_METADATA_ENDPOINT@)
            } else {
                r matches Ok(ProviderRegistration::Ollama { url_host }) && url_host@ == bare_host(u)
            },
        },
        Some(ProviderType::Gemini) => if api_key is None || api_key->0.len() == 0 {
            r matches Err(e) && bad_request(e, "api_key is required for gemini providers"@)
        } else {
            r == Ok::<ProviderRegistration, AppError>(ProviderRegistration::Gemini)
        },
        Some(ProviderType::Whisper) => r == Ok::<ProviderRegistration, AppError>(ProviderRegistration::Whisper),
    }
}

/// The fields of a provider registration whose URL cannot be cut (an
/// Ollama provider with an http(s) URL, not naming the metadata host, whose
/// `]` comes before its `[`).
pub open spec fn provider_url_uncuttable(provider_type: Seq<char>, url: Option<Seq<char>>) -> bool {
    url matches Some(u) && provider_type_named(unicode_lowercase(provider_type)) == Some(ProviderType::Ollama)
        && http_scheme(u) && !contains_seq(u, METADATA_HOST@) && !host_cut_ok(u)
}

/// First step of `POST /v1/providers`: the provider type must be known;
/// an Ollama provider needs a URL (screened as any provider URL); a Gemini
/// provider needs an API key.
pub fn register_provider_start(provider_type: &str, url: Option<&str>, api_key: Option<&str>) -> (r: Result<
    ProviderRegistration,
    AppError,
>)
    requires
        !provider_url_uncuttable(provider_type@, opt_view(url)),
    ensures
        provider_registration_answer(provider_type@, opt_view(url), opt_view(api_key), r),
{
    let pt = match parse_provider_type(provider_type) {
        Some(pt) => pt,
        None => {
            return Err(AppError::BadRequest("provider_type must be 'ollama' or 'gemini'".to_owned()));
        },
    };
    match pt {
        ProviderType::Ollama => {
            let u = match url {
                Some(u) => u,
                None => {
                    return Err(AppError::BadRequest("url is required for ollama providers".to_owned()));
                },
            };
            if u.unicode_len() == 0 {
                return Err(AppError::BadRequest("url is required for ollama providers".to_owned()));
            }
            match provider_url_host(u) {
                Ok(h) => Ok(ProviderRegistration::Ollama { url_host: h }),
                Err(e) => Err(e),
            }
        },
        ProviderType::Gemini => {
            let missing = match api_key {
                Some(k) => k.unicode_len() == 0,
                None => true,
            };
            if missing {
                Err(AppError::BadRequest("api_key is required for gemini providers".to_owned()))
            } else {
                Ok(ProviderRegistration::Gemini)
            }
        },
        ProviderType::Whisper => Ok(ProviderRegistration::Whisper),
    }
}

/// The view of an optional text.
pub open spec fn opt_view(t: Option<&str>) -> Option<Seq<char>> {
    match t {
        Some(x) => Some(x@),
        None => None,
    }
}

/// The first step of `POST /v1/providers` where it can be taken: `None` for
/// fields whose URL cannot be cut (see `provider_url_uncuttable`), else what
/// `register_provider_start` answers.
pub fn register_provider_checked(provider_type: &str, url: Option<&str>, api_key: Option<&str>) -> (r: Option<
    Result<ProviderRegistration, AppError>,
>)
    ensures
        provider_url_uncuttable(provider_type@, opt_view(url)) ==> r is None,
        !provider_url_uncuttable(provider_type@, opt_view(url)) ==> (r matches Some(x)
            && provider_registration_answer(provider_type@, opt_view(url), opt_view(api_key), x)),
{
    let uncuttable = match url {
        Some(u) => {
            let ollama = match parse_provider_type(provider_type) {
                Some(ProviderType::Ollama) => true,
                _ => false,
            };
            ollama && (starts_with(u, "http://") || starts_with(u, "https://")) && !contains(u, METADATA_HOST)
                && !url_host_cut_ok(u)
        },
        None => false,
    };
    if uncuttable {
        None
    } else {
        Some(register_provider_start(provider_type, url, api_key))
    }
}

/// An Ollama URL that is already registered is `409`.
pub fn check_duplicate_provider(existing: i64) -> (r: Result<(), AppError>)
    ensures
        existing > 0 ==> (r matches Err(AppError::Conflict(m)) && m@ == "a provider with this URL is already registered"@),
        existing <= 0 ==> r is Ok,
{
    if existing > 0 {
        Err(AppError::Conflict("a provider with this URL is already registered".to_owned()))
    } else {
        Ok(())
    }
}

/// An Ollama provider that fails its first health check is not registered
/// (`502`); other providers are registered whatever their first status.
pub fn check_initial_status(provider_type: ProviderType, status: LlmProviderStatus) -> (r: Result<(), AppError>)
    ensures
        provider_type == ProviderType::Ollama && status == LlmProviderStatus::Offline ==> (r matches Err(
            AppError::BadGateway(m),
        ) && m@ == "Ollama is not reachable at the given URL"@),
        !(provider_type == ProviderType::Ollama && status == LlmProviderStatus::Offline) ==> r is Ok,
{
    match (provider_type, status) {
        (ProviderType::Ollama, LlmProviderStatus::Offline) => Err(
            AppError::BadGateway("Ollama is not reachable at the given URL".to_owned()),
        ),
        _ => Ok(()),
    }
}

// ── MCP servers ──────────────────────────────────────────────────────────────

/// Longest MCP server name, in bytes.
pub const MAX_MCP_NAME_BYTES: usize = 128;

/// Default MCP call timeout, in seconds.
pub const DEFAULT_MCP_TIMEOUT_SECS: i32 = 30;

/// The trimmed fields of a new MCP server.
#[derive(Debug, Clone, PartialEq, Eq)]
pub struct McpRegistration {
    pub name: String,
    pub slug: String,
    pub url: String,
    /// Host of the URL, to be screened as an address.
    pub url_host: String,
}

/// First step of `POST /v1/mcp/servers`: name, slug and URL are trimmed; the
/// name must be non-empty and at most 128 bytes; the slug must be valid;
/// the URL is screened as a provider URL.
pub fn register_mcp_start(name: &str, slug: &str, url: &str) -> (r: Result<McpRegistration, AppError>)
    requires
        trim(name@).len() > 0 && byte_len(trim(name@)) <= MAX_MCP_NAME_BYTES && slug_problem(
            trim(slug@),
            byte_len(trim(slug@)) as nat,
        ) is None && http_scheme(trim(url@)) && !contains_seq(trim(url@), METADATA_HOST@) ==> host_cut_ok(
            trim(url@),
        ),
    ensures
        if trim(name@).len() == 0 {
            r matches Err(e) && bad_request(e, "name is required"@)
        } else if byte_len(trim(name@)) > MAX_MCP_NAME_BYTES {
            r matches Err(e) && bad_request(e, "name must be 128 characters or fewer"@)
        } else if slug_problem(trim(slug@), byte_len(trim(slug@)) as nat) is Some {
            r matches Err(e) && bad_request(e, slug_problem(trim(slug@), byte_len(trim(slug@)) as nat)->0)
        } else if !http_scheme(trim(url@)) {
            r matches Err(e) && bad_request(e, ERR_PROVIDER_SCHEME@)
        } else if contains_seq(trim(url@), METADATA_HOST@) {
            r matches Err(e) && bad_request(e, ERR_METADATA_ENDPOINT@)
        } else {
            r matches Ok(reg) && {
                &&& reg.name@ == trim(name@)
                &&& reg.slug@ == trim(slug@)
                &&& reg.url@ == trim(url@)
                &&& reg.url_host@ == bare_host(trim(url@))
            }
        },
{
    let n = trim_str(name);
    let s = trim_str(slug);
    let u = trim_str(url);
    if n.unicode_len() == 0 {
        return Err(AppError::BadRequest("name is required".to_owned()));
    }
    if n.len() > MAX_MCP_NAME_BYTES {
        return Err(AppError::BadRequest("name must be 128 characters or fewer".to_owned()));
    }
    match validate_slug(s) {
        Ok(()) => {},
        Err(e) => {
            return Err(e);
        },
    }
    let host = match provider_url_host(u) {
        Ok(h) => h,
        Err(e) => {
            return Err(e);
        },
    };
    Ok(McpRegistration { name: n.to_owned(), slug: s.to_owned(), url: u.to_owned(), url_host: host })
}

/// The timeout of a new MCP server: 1 to 300 seconds, 30 when not given.
pub fn mcp_timeout(requested: Option<i32>) -> (r: Result<i32, AppError>)
    ensures
        match requested {
            None => r == Ok::<i32, AppError>(DEFAULT_MCP_TIMEOUT_SECS),
            Some(t) => if 1 <= t <= 300 {
                r == Ok::<i32, AppError>(t)
            } else {
                r matches Err(e) && bad_request(e, "timeout_secs must be between 1 and 300"@)
            },
        },
{
    match requested {
        None => Ok(DEFAULT_MCP_TIMEOUT_SECS),
        Some(t) => {
            if 1 <= t && t <= 300 {
                Ok(t)
            } else {
                Err(AppError::BadRequest("timeout_secs must be between 1 and 300".to_owned()))
            }
        },
    }
}

/// The stored fields of an MCP server that an update reads.
#[derive(Debug, Clone, PartialEq, Eq)]
pub struct McpServerState {
    pub name: String,
    pub slug: String,
    pub url: String,
    pub is_enabled: bool,
}

/// The fields an MCP server update asks to change.
#[derive(Debug, Clone, PartialEq, Eq)]
pub struct McpServerPatch {
    pub name: Option<String>,
    pub slug: Option<String>,
    pub url: Option<String>,
    pub is_enabled: Option<bool>,
}

/// The resolved update of an MCP server.
#[derive(Debug, Clone, PartialEq, Eq)]
pub struct McpUpdate {
    pub name: String,
    pub slug: String,
    pub url: String,
    pub is_enabled: bool,
    pub url_changed: bool,
    pub slug_changed: bool,
}

/// Plans an MCP server update: each field keeps its stored value unless
/// given; a given name must be at most 128 bytes; a given URL is screened
/// as a provider URL, its host address included (`url_ip` is what the host
/// that `provider_url_host` cuts out of the given URL reads as, if it is an
/// IP address); then a given slug is trimmed and must be valid. (A changed
/// slug must then be checked for uniqueness.)
pub fn plan_mcp_update(row: &McpServerState, patch: &McpServerPatch, url_ip: Option<IpAddress>) -> (r: Result<
    McpUpdate,
    AppError,
>)
    requires
        patch.url matches Some(u) ==> (http_scheme(u@) && !contains_seq(u@, METADATA_HOST@) ==> host_cut_ok(u@)),
    ensures
        if patch.name matches Some(n) && byte_len(n@) > MAX_MCP_NAME_BYTES {
            r matches Err(e) && bad_request(e, "name must be 128 characters or fewer"@)
        } else if patch.url matches Some(u) && !http_scheme(u@) {
            r matches Err(e) && bad_request(e, ERR_PROVIDER_SCHEME@)
        } else if patch.url matches Some(u) && contains_seq(u@, METADATA_HOST@) {
            r matches Err(e) && bad_request(e, ERR_METADATA_ENDPOINT@)
        } else if url_ip matches Some(a) && patch.url is Some && blocked_address(a) {
            r matches Err(e) && bad_request(e, ERR_METADATA_ENDPOINT@)
        } else if patch.slug matches Some(sl) && slug_problem(trim(sl@), byte_len(trim(sl@)) as nat) is Some {
            r matches Err(e) && (patch.slug matches Some(sl) && bad_request(
                e,
                slug_problem(trim(sl@), byte_len(trim(sl@)) as nat)->0,
            ))
        } else {
            r matches Ok(up) && {
                &&& up.is_enabled == match patch.is_enabled {
                    Some(b) => b,
                    None => row.is_enabled,
                }
                &&& up.name@ == match patch.name {
                    Some(n) => n@,
                    None => row.name@,
                }
                &&& up.url@ == match patch.url {
                    Some(u) => u@,
                    None => row.url@,
                }
                &&& up.slug@ == match patch.slug {
                    Some(s) => trim(s@),
                    None => row.slug@,
                }
                &&& up.url_changed == (patch.url matches Some(u) && u@ != row.url@)
                &&& up.slug_changed == (up.slug@ != row.slug@)
            }
        },
{
    let is_enabled = match patch.is_enabled {
        Some(b) => b,
        None => row.is_enabled,
    };
    let name = match &patch.name {
        Some(n) => {
            if n.as_str().len() > MAX_MCP_NAME_BYTES {
                return Err(AppError::BadRequest("name must be 128 characters or fewer".to_owned()));
            }
            n.clone()
        },
        None => row.name.clone(),
    };
    let (url, url_changed) = match &patch.url {
        Some(u) => {
            match provider_url_host(u.as_str()) {
                Ok(_) => {},
                Err(e) => {
                    return Err(e);
                },
            }
            match check_provider_address(url_ip) {
                Ok(()) => {},
                Err(e) => {
                    return Err(e);
                },
            }
            let changed = !str_eq(u.as_str(), row.url.as_str());
            (u.clone(), changed)
        },
        None => (row.url.clone(), false),
    };
    let slug = match &patch.slug {
        Some(s) => {
            let t = trim_str(s.as_str());
            match validate_slug(t) {
                Ok(()) => {},
                Err(e) => {
                    return Err(e);
                },
            }
            t.to_owned()
        },
        None => row.slug.clone(),
    };
    let slug_changed = !str_eq(slug.as_str(), row.slug.as_str());
    Ok(McpUpdate { name, slug, url, is_enabled, url_changed, slug_changed })
}

/// A slug that another server already uses is `409`.
pub fn check_slug_free(in_use: bool) -> (r: Result<(), AppError>)
    ensures
        in_use ==> (r matches Err(AppError::Conflict(m)) && m@ == "slug already in use"@),
        !in_use ==> r is Ok,
{
    if in_use {
        Err(AppError::Conflict("slug already in use".to_owned()))
    } else {
        Ok(())
    }
}

/// What happens to the live MCP session after an update.
#[derive(Debug, Clone, Copy, PartialEq, Eq)]
pub enum McpSessionAction {
    /// Nothing changes.
    Keep,
    /// The server was disabled: disconnect and drop its cached tools.
    Disconnect,
    /// Connect (again); first disconnect when the address or slug changed.
    Connect { disconnect_first: bool },
}

/// The session action of an update: disabling disconnects; an enabled
/// server that was disabled, or whose URL or slug changed, connects again
/// (dropping the old session first when URL or slug changed).
pub fn mcp_session_action(was_enabled: bool, now_enabled: bool, url_changed: bool, slug_changed: bool) -> (r:
    McpSessionAction)
    ensures
        r == if !now_enabled && was_enabled {
            McpSessionAction::Disconnect
        } else if now_enabled && (!was_enabled || url_changed || slug_changed) {
            McpSessionAction::Connect { disconnect_first: url_changed || slug_changed }
        } else {
            McpSessionAction::Keep
        },
{
    if !now_enabled && was_enabled {
        McpSessionAction::Disconnect
    } else if now_enabled && (!was_enabled || url_changed || slug_changed) {
        McpSessionAction::Connect { disconnect_first: url_changed || slug_changed }
    } else {
        McpSessionAction::Keep
    }
}

// ── Accounts ─────────────────────────────────────────────────────────────────

/// Where the roles of a new account come from.
#[derive(Debug, Clone, PartialEq, Eq)]
pub enum RoleChoice {
    /// The listed role ids, all of which must exist.
    Listed(Vec<u128>),
    /// The one given role id, which must exist.
    Single(u128),
    /// The `viewer` role.
    DefaultViewer,
}

/// The roles of a new account: an explicit non-empty list wins over the
/// single legacy role id, which wins over the default viewer role.
pub fn choose_roles(role_ids: Vec<u128>, role_id: Option<u128>) -> (r: RoleChoice)
    ensures
        role_ids@.len() > 0 ==> r == RoleChoice::Listed(role_ids),
        role_ids@.len() == 0 && role_id is Some ==> r == RoleChoice::Single(role_id->0),
        role_ids@.len() == 0 && role_id is None ==> r == RoleChoice::DefaultViewer,
{
    if role_ids.len() > 0 {
        RoleChoice::Listed(role_ids)
    } else {
        match role_id {
            Some(id) => RoleChoice::Single(id),
            None => RoleChoice::DefaultViewer,
        }
    }
}

/// Every listed role must exist: fewer matches than ids is `400`.
pub fn check_listed_roles(requested: usize, found: usize) -> (r: Result<(), AppError>)
    ensures
        found != requested ==> (r matches Err(e) && bad_request(e, "one or more invalid role_ids"@)),
        found == requested ==> r is Ok,
{
    if found != requested {
        Err(AppError::BadRequest("one or more invalid role_ids".to_owned()))
    } else {
        Ok(())
    }
}

/// A single role id that does not exist is `400`.
pub fn check_single_role(exists: bool) -> (r: Result<(), AppError>)
    ensures
        !exists ==> (r matches Err(e) && bad_request(e, "invalid role_id"@)),
        exists ==> r is Ok,
{
    if !exists {
        Err(AppError::BadRequest("invalid role_id".to_owned()))
    } else {
        Ok(())
    }
}

/// The answer to a failed account insert: a uniqueness violation is `409
/// username already exists`; anything else is internal.
pub fn account_insert_error(message: &str) -> (r: AppError)
    ensures
        (contains_seq(message@, "unique"@) || contains_seq(message@, "duplicate"@)) ==> (r matches AppError::Conflict(m)
            && m@ == "username already exists"@),
        !(contains_seq(message@, "unique"@) || contains_seq(message@, "duplicate"@)) ==> (r matches AppError::Internal(
            m,
        ) && m@ == message@),
{
    if contains(message, "unique") || contains(message, "duplicate") {
        AppError::Conflict("username already exists".to_owned())
    } else {
        AppError::Internal(message.to_owned())
    }
}

/// The test API key created with an account: named `<username>-test`,
/// tenant the username, unlimited, of the test type and paid tier, owned by
/// the creating account.
pub fn account_test_key(username: &str, generated: GeneratedApiKey, creator: u128, now: i64) -> (r: ApiKey)
    ensures
        r.id == generated.id,
        r.key_hash == generated.key_hash,
        r.key_prefix == generated.key_prefix,
        r.tenant_id@ == username@,
        r.name@ == username@ + "-test"@,
        r.is_active,
        r.rate_limit_rpm == 0 && r.rate_limit_tpm == 0,
        r.expires_at is None && r.deleted_at is None,
        r.created_at == now,
        r.key_type == KeyType::Test,
        r.tier == KeyTier::Paid,
        r.account_id == Some(creator),
{
    ApiKey {
        id: generated.id,
        key_hash: generated.key_hash,
        key_prefix: generated.key_prefix,
        tenant_id: username.to_owned(),
        name: concat2(username, "-test"),
        is_active: true,
        rate_limit_rpm: 0,
        rate_limit_tpm: 0,
        expires_at: None,
        created_at: now,
        deleted_at: None,
        key_type: KeyType::Test,
        tier: KeyTier::Paid,
        account_id: Some(creator),
    }
}

// ── MCP server listing ───────────────────────────────────────────────────────

/// One tool of an MCP server as the listing shows it.
#[derive(Debug, Clone, PartialEq, Eq)]
pub struct McpToolSummary {
    pub name: String,
    pub namespaced_name: String,
    pub description: Option<String>,
}

/// The string at `key` of `item`, empty when there is none.
pub open spec fn str_or_empty(item: Json, key: Seq<char>) -> Seq<char> {
    match str_of(field(item, key)) {
        Some(s) => s,
        None => Seq::empty(),
    }
}

/// `t` is the summary of the cached tool entry `item`.
pub open spec fn summarizes_tool(t: McpToolSummary, item: Json) -> bool {
    &&& t.name@ == str_or_empty(item, "name"@)
    &&& t.namespaced_name@ == str_or_empty(item, "namespaced_name"@)
    &&& match str_of(field(item, "description"@)) {
        Some(d) => t.description matches Some(x) && x@ == d,
        None => t.description is None,
    }
}

fn string_or_empty(item: &Json, key: &str) -> (r: String)
    ensures
        r@ == str_or_empty(*item, key@),
{
    match as_str_of(get_field(item, key)) {
        Some(s) => s.to_owned(),
        None => String::new(),
    }
}

/// Reads the cached tools summary of a server: one entry per array item
/// (missing names read as empty); anything but an array gives none.
pub fn tool_summaries(summary: &Json) -> (r: Vec<McpToolSummary>)
    ensures
        match summary {
            Json::Array(items) => r@.len() == items@.len() && forall|i: int|
                0 <= i < r@.len() ==> summarizes_tool(#[trigger] r@[i], items@[i]),
            _ => r@.len() == 0,
        },
{
    let mut out: Vec<McpToolSummary> = Vec::new();
    match summary {
        Json::Array(items) => {
            let n = items.len();
            let mut i: usize = 0;
            while i < n
                invariant
                    n == items@.len(),
                    i <= n,
                    out@.len() == i,
                    forall|k: int| 0 <= k < i ==> summarizes_tool(#[trigger] out@[k], items@[k]),
                decreases n - i,
            {
                let item = &items[i];
                let description = match as_str_of(get_field(item, "description")) {
                    Some(d) => Some(d.to_owned()),
                    None => None,
                };
                out.push(McpToolSummary {
                    name: string_or_empty(item, "name"),
                    namespaced_name: string_or_empty(item, "namespaced_name"),
                    description,
                });
                i += 1;
            }
        },
        _ => {},
    }
    out
}

/// Which of `count` servers are online: those whose heartbeat was found
/// (a missing reply counts as offline).
pub fn heartbeat_online(count: usize, liveness: &Vec<Option<String>>) -> (r: Vec<bool>)
    ensures
        r@.len() == count,
        forall|i: int| 0 <= i < count ==> #[trigger] r@[i] == (i < liveness@.len() && liveness@[i] is Some),
{
    let mut out: Vec<bool> = Vec::new();
    let mut i: usize = 0;
    while i < count
        invariant
            i <= count,
            out@.len() == i,
            forall|k: int| 0 <= k < i ==> #[trigger] out@[k] == (k < liveness@.len() && liveness@[k] is Some),
        decreases count - i,
    {
        let online = i < liveness.len() && liveness[i].is_some();
        out.push(online);
        i += 1;
    }
    out
}

// ── Account updates ──────────────────────────────────────────────────────────

/// Refusal of an update that would leave an account without roles.
pub const ERR_NO_ROLE_GIVEN: &'static str = "at least one role is required";

/// An account after a profile update: a given name replaces the old one,
/// and a given e-mail, department or position replaces the old value (an
/// absent one keeps it). Everything else stays.
pub fn apply_account_update(a: Account, name: Option<String>, email: Option<String>, department: Option<String>, position: Option<String>) -> (r: Account)
    ensures
        r.name == match name {
            Some(n) => n,
            None => a.name,
        },
        r.email == match email {
            Some(e) => Some(e),
            None => a.email,
        },
        r.department == match department {
            Some(d) => Some(d),
            None => a.department,
        },
        r.position == match position {
            Some(p) => Some(p),
            None => a.position,
        },
        r.id == a.id && r.username == a.username && r.password_hash == a.password_hash && r.role == a.role,
        r.is_active == a.is_active && r.created_by == a.created_by && r.last_login_at == a.last_login_at,
        r.created_at == a.created_at && r.deleted_at == a.deleted_at,
{
    let mut a = a;
    match name {
        Some(n) => a.name = n,
        None => {},
    }
    match email {
        Some(e) => a.email = Some(e),
        None => {},
    }
    match department {
        Some(d) => a.department = Some(d),
        None => {},
    }
    match position {
        Some(p) => a.position = Some(p),
        None => {},
    }
    a
}

/// A role list given in an update must not be empty.
pub fn check_update_roles(count: usize) -> (r: Result<(), AppError>)
    ensures
        count == 0 ==> (r matches Err(e) && bad_request(e, ERR_NO_ROLE_GIVEN@)),
        count > 0 ==> r is Ok,
{
    if count == 0 {
        Err(AppError::BadRequest(ERR_NO_ROLE_GIVEN.to_owned()))
    } else {
        Ok(())
    }
}

/// Body of `PATCH /v1/mcp/settings`: each given value replaces the stored one.
#[derive(Debug, Clone, PartialEq, Eq)]
pub struct PatchMcpSettingsRequest {
    pub routing_cache_ttl_secs: Option<i32>,
    pub tool_schema_refresh_secs: Option<i32>,
    pub embedding_model: Option<String>,
    pub max_tools_per_request: Option<i32>,
    pub max_routing_cache_entries: Option<i32>,
}

/// Refusal of a tool budget out of range.
pub const ERR_MAX_TOOLS_RANGE: &'static str = "max_tools_per_request must be 1–200";

/// A given tool budget per request must lie in `1..=200`.
pub fn check_mcp_settings(patch: &PatchMcpSettingsRequest) -> (r: Result<(), AppError>)
    ensures
        match patch.max_tools_per_request {
            Some(v) => if 1 <= v <= 200 {
                r is Ok
            } else {
                r matches Err(e) && bad_request(e, ERR_MAX_TOOLS_RANGE@)
            },
            None => r is Ok,
        },
{
    match patch.max_tools_per_request {
        Some(v) => {
            if 1 <= v && v <= 200 {
                Ok(())
            } else {
                Err(AppError::BadRequest(ERR_MAX_TOOLS_RANGE.to_owned()))
            }
        },
        None => Ok(()),
    }
}

} // verus!
