//! Authentication decisions of the HTTP middleware: which paths skip
//! authentication, where a credential is read from, when an API key or a
//! session token is admitted, and the permission checks of the extractors.
//!
//! Looking keys up, verifying token signatures and reading the revocation
//! list are done by the caller between these steps; each step here takes
//! what they returned.

use vstd::prelude::*;
use vstd::string::*;
use vstd::utf8::encode_utf8;

use crate::domain::constants::API_KEY_PREFIX;
use crate::domain::entities::ApiKey;
use crate::domain::enums::{AccountRole, JobSource, KeyTier, KeyType};
use crate::domain::services::{blake2_hex, hash_api_key};
use crate::http::error::AppError;
use crate::text::{concat3, has_prefix, owned, starts_with, str_eq, trim, trim_str};

verus! {

// ── Excluded paths ───────────────────────────────────────────────────────────

/// Paths served without authentication.
pub const EXCLUDED_PATHS: &'static [&'static str; 2] = &["/health", "/readyz"];

/// `path` is exactly one of the excluded paths.
pub open spec fn is_excluded(path: Seq<char>) -> bool {
    path == "/health"@ || path == "/readyz"@
}

/// Exact match against the excluded paths (no prefix match).
pub fn is_excluded_path(path: &str) -> (r: bool)
    ensures
        r == is_excluded(path@),
{
    str_eq(path, "/health") || str_eq(path, "/readyz")
}

// ── Credential headers ───────────────────────────────────────────────────────

/// The credential-bearing request headers, each as its text when present
/// and readable.
#[derive(Debug, Clone, PartialEq, Eq)]
pub struct CredentialHeaders {
    /// `X-API-Key`.
    pub x_api_key: Option<String>,
    /// `Authorization`.
    pub authorization: Option<String>,
    /// `x-goog-api-key`.
    pub goog_api_key: Option<String>,
    /// Every `Cookie` header value, in order.
    pub cookies: Vec<String>,
}

/// What follows `Bearer ` in an `Authorization` value, if it starts so.
pub open spec fn bearer_token(v: Seq<char>) -> Option<Seq<char>> {
    if has_prefix(v, "Bearer "@) {
        Some(v.subrange(7, v.len() as int))
    } else {
        None
    }
}

/// The bearer token of an optional `Authorization` header.
pub open spec fn header_bearer(h: Option<String>) -> Option<Seq<char>> {
    match h {
        Some(v) => bearer_token(v@),
        None => None,
    }
}

/// The text of an optional header.
pub open spec fn header_text(h: Option<String>) -> Option<Seq<char>> {
    match h {
        Some(v) => Some(v@),
        None => None,
    }
}

/// Strips the `Bearer ` scheme from an `Authorization` value.
pub fn strip_bearer(v: &str) -> (r: Option<&str>)
    ensures
        match bearer_token(v@) {
            Some(t) => r matches Some(s) && s@ == t,
            None => r is None,
        },
{
    proof {
        reveal_strlit("Bearer ");
    }
    if starts_with(v, "Bearer ") {
        Some(v.substring_char(7, v.unicode_len()))
    } else {
        None
    }
}

fn bearer_of(h: &Option<String>) -> (r: Option<String>)
    ensures
        match header_bearer(*h) {
            Some(t) => r matches Some(s) && s@ == t,
            None => r is None,
        },
{
    match h {
        Some(v) => match strip_bearer(v.as_str()) {
            Some(t) => Some(owned(t)),
            None => None,
        },
        None => None,
    }
}

/// The API key presented to the API-key middleware: `X-API-Key`, else the
/// bearer token, else `x-goog-api-key`.
pub open spec fn presented_api_key(h: CredentialHeaders) -> Option<Seq<char>> {
    if h.x_api_key is Some {
        header_text(h.x_api_key)
    } else if header_bearer(h.authorization) is Some {
        header_bearer(h.authorization)
    } else {
        header_text(h.goog_api_key)
    }
}

/// The API key presented to the inference middleware: as above, but a
/// bearer token counts only when it starts with the key prefix
/// `API_KEY_PREFIX` (other bearer tokens are session tokens).
pub open spec fn presented_infer_key(h: CredentialHeaders) -> Option<Seq<char>> {
    if h.x_api_key is Some {
        header_text(h.x_api_key)
    } else if header_bearer(h.authorization) matches Some(t) && has_prefix(t, API_KEY_PREFIX@) {
        header_bearer(h.authorization)
    } else {
        header_text(h.goog_api_key)
    }
}

fn clone_opt(h: &Option<String>) -> (r: Option<String>)
    ensures
        header_text(r) == header_text(*h),
        r is Some <==> h is Some,
{
    match h {
        Some(v) => Some(v.clone()),
        None => None,
    }
}

/// Reads the API key presented to the API-key middleware.
pub fn api_key_credential(h: &CredentialHeaders) -> (r: Option<String>)
    ensures
        header_text(r) == presented_api_key(*h),
{
    if h.x_api_key.is_some() {
        return clone_opt(&h.x_api_key);
    }
    let b = bearer_of(&h.authorization);
    if b.is_some() {
        return b;
    }
    clone_opt(&h.goog_api_key)
}

/// Reads the API key presented to the inference middleware.
pub fn infer_key_credential(h: &CredentialHeaders) -> (r: Option<String>)
    ensures
        header_text(r) == presented_infer_key(*h),
{
    if h.x_api_key.is_some() {
        return clone_opt(&h.x_api_key);
    }
    let b = bearer_of(&h.authorization);
    match b {
        Some(t) => {
            if starts_with(t.as_str(), API_KEY_PREFIX) {
                return Some(t);
            }
        },
        None => {},
    }
    clone_opt(&h.goog_api_key)
}

// ── Access-token cookie ──────────────────────────────────────────────────────

/// Name and `=` of the access-token cookie.
pub const ACCESS_COOKIE_PREFIX: &'static str = "veronex_access_token=";

/// Name and `=` of the refresh-token cookie.
pub const REFRESH_COOKIE_PREFIX: &'static str = "veronex_refresh_token=";

/// The pieces of `s` between `;` separators, in order (`str::split(';')`).
pub open spec fn split_semicolons(s: Seq<char>) -> Seq<Seq<char>>
    decreases s.len(),
{
    if s.len() == 0 {
        seq![Seq::empty()]
    } else {
        let init = split_semicolons(s.drop_last());
        if s.last() == ';' {
            init.push(Seq::empty())
        } else {
            init.update(init.len() - 1, init.last().push(s.last()))
        }
    }
}

/// The value a cookie piece carries for the cookie `name=`: the trimmed
/// piece must start with it, and the trimmed rest must be non-empty.
pub open spec fn cookie_piece_token(piece: Seq<char>, name: Seq<char>) -> Option<Seq<char>> {
    let p = trim(piece);
    if has_prefix(p, name) {
        let v = trim(p.subrange(name.len() as int, p.len() as int));
        if v.len() > 0 {
            Some(v)
        } else {
            None
        }
    } else {
        None
    }
}

/// The value of the first piece, in order, that carries one.
pub open spec fn first_piece_token(pieces: Seq<Seq<char>>, name: Seq<char>) -> Option<Seq<char>>
    decreases pieces.len(),
{
    if pieces.len() == 0 {
        None
    } else if cookie_piece_token(pieces[0], name) is Some {
        cookie_piece_token(pieces[0], name)
    } else {
        first_piece_token(pieces.drop_first(), name)
    }
}

/// The value of cookie `name=` in the first `Cookie` header value that
/// carries it.
pub open spec fn cookie_value(values: Seq<Seq<char>>, name: Seq<char>) -> Option<Seq<char>>
    decreases values.len(),
{
    if values.len() == 0 {
        None
    } else if first_piece_token(split_semicolons(values[0]), name) is Some {
        first_piece_token(split_semicolons(values[0]), name)
    } else {
        cookie_value(values.drop_first(), name)
    }
}

/// The access token of the `Cookie` headers.
pub open spec fn access_cookie(values: Seq<Seq<char>>) -> Option<Seq<char>> {
    cookie_value(values, ACCESS_COOKIE_PREFIX@)
}

proof fn lemma_first_piece_token_push(pieces: Seq<Seq<char>>, x: Seq<char>, name: Seq<char>)
    ensures
        first_piece_token(pieces.push(x), name) == if first_piece_token(pieces, name) is Some {
            first_piece_token(pieces, name)
        } else {
            cookie_piece_token(x, name)
        },
    decreases pieces.len(),
{
    if pieces.len() == 0 {
        assert(pieces.push(x).drop_first() =~= Seq::<Seq<char>>::empty());
    } else {
        assert(pieces.push(x).drop_first() =~= pieces.drop_first().push(x));
        lemma_first_piece_token_push(pieces.drop_first(), x, name);
    }
}

fn piece_token(piece: &str, name: &str) -> (r: Option<String>)
    ensures
        match cookie_piece_token(piece@, name@) {
            Some(t) => r matches Some(s) && s@ == t,
            None => r is None,
        },
{
    let p = trim_str(piece);
    if starts_with(p, name) {
        let rest = p.substring_char(name.unicode_len(), p.unicode_len());
        let v = trim_str(rest);
        if v.unicode_len() > 0 {
            Some(owned(v))
        } else {
            None
        }
    } else {
        None
    }
}

fn value_token(value: &str, name: &str) -> (r: Option<String>)
    ensures
        match first_piece_token(split_semicolons(value@), name@) {
            Some(t) => r matches Some(s) && s@ == t,
            None => r is None,
        },
{
    let n = value.unicode_len();
    let mut start: usize = 0;
    let mut i: usize = 0;
    let mut found: Option<String> = None;
    let ghost mut done: Seq<Seq<char>> = Seq::empty();
    assert(value@.subrange(0, 0) =~= Seq::<char>::empty());
    assert(split_semicolons(Seq::<char>::empty()) =~= done.push(value@.subrange(0, 0)));
    while i < n
        invariant
            n == value@.len(),
            start <= i <= n,
            split_semicolons(value@.subrange(0, i as int)) == done.push(value@.subrange(start as int, i as int)),
            match first_piece_token(done, name@) {
                Some(t) => found matches Some(s) && s@ == t,
                None => found is None,
            },
        decreases n - i,
    {
        let c = value.get_char(i);
        let ghost pre = value@.subrange(0, i as int);
        assert(value@.subrange(0, i + 1).drop_last() =~= pre);
        assert(value@.subrange(0, i + 1).last() == c);
        if c == ';' {
            let piece = value.substring_char(start, i);
            proof {
                lemma_first_piece_token_push(done, piece@, name@);
            }
            if found.is_none() {
                found = piece_token(piece, name);
            }
            proof {
                done = done.push(piece@);
                assert(value@.subrange(i + 1, i + 1) =~= Seq::<char>::empty());
            }
            start = i + 1;
        } else {
            proof {
                assert(value@.subrange(start as int, i + 1) =~= value@.subrange(start as int, i as int).push(c));
                assert(done.push(value@.subrange(start as int, i as int)).update(
                    done.len() as int,
                    value@.subrange(start as int, i + 1),
                ) =~= done.push(value@.subrange(start as int, i + 1)));
            }
        }
        i += 1;
    }
    assert(value@.subrange(0, n as int) =~= value@);
    let last = value.substring_char(start, n);
    proof {
        lemma_first_piece_token_push(done, last@, name@);
    }
    if found.is_some() {
        found
    } else {
        piece_token(last, name)
    }
}

/// The value of cookie `name=` (the name followed by `=`) in the `Cookie`
/// headers: the first `;`-separated piece, over the header values in order,
/// that after trimming starts with it and has a non-empty trimmed value.
pub fn extract_cookie(cookies: &Vec<String>, name: &str) -> (r: Option<String>)
    ensures
        match cookie_value(cookies@.map_values(|s: String| s@), name@) {
            Some(t) => r matches Some(s) && s@ == t,
            None => r is None,
        },
{
    let ghost vals = cookies@.map_values(|s: String| s@);
    let n = cookies.len();
    let mut i: usize = 0;
    assert(vals.subrange(0, n as int) =~= vals);
    while i < n
        invariant
            n == cookies@.len(),
            vals == cookies@.map_values(|s: String| s@),
            i <= n,
            cookie_value(vals, name@) == cookie_value(vals.subrange(i as int, n as int), name@),
        decreases n - i,
    {
        let ghost rest = vals.subrange(i as int, n as int);
        assert(rest[0] == cookies@[i as int]@);
        assert(rest.drop_first() =~= vals.subrange(i + 1, n as int));
        let t = value_token(cookies[i].as_str(), name);
        if t.is_some() {
            return t;
        }
        i += 1;
    }
    assert(vals.subrange(n as int, n as int) =~= Seq::<Seq<char>>::empty());
    None
}

/// The access token from the `Cookie` headers.
pub fn extract_access_cookie(cookies: &Vec<String>) -> (r: Option<String>)
    ensures
        match access_cookie(cookies@.map_values(|s: String| s@)) {
            Some(t) => r matches Some(s) && s@ == t,
            None => r is None,
        },
{
    extract_cookie(cookies, ACCESS_COOKIE_PREFIX)
}

/// The refresh token from the `Cookie` headers.
pub fn extract_refresh_cookie(cookies: &Vec<String>) -> (r: Option<String>)
    ensures
        match cookie_value(cookies@.map_values(|s: String| s@), REFRESH_COOKIE_PREFIX@) {
            Some(t) => r matches Some(s) && s@ == t,
            None => r is None,
        },
{
    extract_cookie(cookies, REFRESH_COOKIE_PREFIX)
}

// ── Claims and callers ───────────────────────────────────────────────────────

/// JWT claims of a session.
#[derive(Debug, Clone, PartialEq, Eq)]
pub struct Claims {
    /// Account id.
    pub sub: u128,
    pub role: AccountRole,
    /// Session token id, the key of the revocation list.
    pub jti: u128,
    pub exp: usize,
    pub permissions: Vec<String>,
    pub menus: Vec<String>,
    pub role_name: String,
}

/// `perm` is among `perms`.
pub open spec fn holds(perms: Seq<String>, perm: Seq<char>) -> bool {
    exists|i: int| 0 <= i < perms.len() && #[trigger] perms[i]@ == perm
}

/// Whether the claims list permission `perm`.
pub fn has_permission(claims: &Claims, perm: &str) -> (r: bool)
    ensures
        r == holds(claims.permissions@, perm@),
{
    let n = claims.permissions.len();
    let mut i: usize = 0;
    while i < n
        invariant
            n == claims.permissions@.len(),
            i <= n,
            forall|j: int| 0 <= j < i ==> claims.permissions@[j]@ != perm@,
        decreases n - i,
    {
        if str_eq(claims.permissions[i].as_str(), perm) {
            return true;
        }
        i += 1;
    }
    false
}

/// Super-admin guard: no claims is `401 authentication required`; another
/// role is `403 super admin access required`.
pub fn require_super(claims: Option<&Claims>) -> (r: Result<(), AppError>)
    ensures
        match claims {
            None => r matches Err(AppError::Unauthorized(m)) && m@ == "authentication required"@,
            Some(c) => if c.role == AccountRole::Super {
                r is Ok
            } else {
                r matches Err(AppError::Forbidden(m)) && m@ == "super admin access required"@
            },
        },
{
    match claims {
        None => Err(AppError::Unauthorized("authentication required".to_owned())),
        Some(c) => match c.role {
            AccountRole::Super => Ok(()),
            _ => Err(AppError::Forbidden("super admin access required".to_owned())),
        },
    }
}

/// Permission guard: super admins pass; otherwise the claims must list
/// `perm`, else `403 permission '<perm>' required`.
pub fn require_permission(claims: Option<&Claims>, perm: &str) -> (r: Result<(), AppError>)
    ensures
        match claims {
            None => r matches Err(AppError::Unauthorized(m)) && m@ == "authentication required"@,
            Some(c) => if c.role == AccountRole::Super || holds(c.permissions@, perm@) {
                r is Ok
            } else {
                r matches Err(AppError::Forbidden(m)) && m@ == "permission '"@ + perm@ + "' required"@
            },
        },
{
    match claims {
        None => Err(AppError::Unauthorized("authentication required".to_owned())),
        Some(c) => {
            let is_super = match c.role {
                AccountRole::Super => true,
                _ => false,
            };
            if is_super || has_permission(c, perm) {
                Ok(())
            } else {
                Err(AppError::Forbidden(concat3("permission '", perm, "' required")))
            }
        },
    }
}

/// Who is calling an inference endpoint.
#[derive(Debug, Clone, PartialEq, Eq)]
pub enum InferCaller {
    /// Authenticated by an API key; rate limited; jobs are `api` jobs.
    ApiKey(ApiKey),
    /// Authenticated by a session holding `api_test`; jobs are `test` jobs.
    Session(Claims),
}

impl InferCaller {
    pub fn api_key_id(&self) -> (r: Option<u128>)
        ensures
            r == match self {
                InferCaller::ApiKey(k) => Some(k.id),
                InferCaller::Session(_) => None::<u128>,
            },
    {
        match self {
            InferCaller::ApiKey(k) => Some(k.id),
            InferCaller::Session(_) => None,
        }
    }

    pub fn account_id(&self) -> (r: Option<u128>)
        ensures
            r == match self {
                InferCaller::ApiKey(_) => None::<u128>,
                InferCaller::Session(c) => Some(c.sub),
            },
    {
        match self {
            InferCaller::ApiKey(_) => None,
            InferCaller::Session(c) => Some(c.sub),
        }
    }

    pub fn key_tier(&self) -> (r: Option<KeyTier>)
        ensures
            r == match self {
                InferCaller::ApiKey(k) => Some(k.tier),
                InferCaller::Session(_) => None::<KeyTier>,
            },
    {
        match self {
            InferCaller::ApiKey(k) => Some(k.tier),
            InferCaller::Session(_) => None,
        }
    }

    pub fn source(&self) -> (r: JobSource)
        ensures
            r == match self {
                InferCaller::ApiKey(_) => JobSource::Api,
                InferCaller::Session(_) => JobSource::Test,
            },
    {
        match self {
            InferCaller::ApiKey(_) => JobSource::Api,
            InferCaller::Session(_) => JobSource::Test,
        }
    }
}

// ── API key admission ────────────────────────────────────────────────────────

/// `m` is an unauthorized error with message `msg`.
pub open spec fn unauthorized(e: AppError, msg: Seq<char>) -> bool {
    e matches AppError::Unauthorized(m) && m@ == msg
}

/// `m` is a forbidden error with message `msg`.
pub open spec fn forbidden(e: AppError, msg: Seq<char>) -> bool {
    e matches AppError::Forbidden(m) && m@ == msg
}

/// Why a presented API key is refused.
#[derive(Debug, Clone, Copy, PartialEq, Eq)]
pub enum KeyRefusal {
    /// No stored key has the presented key's hash.
    Invalid,
    Disabled,
    Expired,
    /// Test keys may not call the API.
    TestKey,
}

/// The refusal, if any, of the stored key found for a presented key at
/// `now` (Unix microseconds): missing, disabled, expired (expiry strictly
/// before now) and test keys are refused, checked in that order.
pub open spec fn key_refusal(found: Option<ApiKey>, now: i64) -> Option<KeyRefusal> {
    match found {
        None => Some(KeyRefusal::Invalid),
        Some(k) => if !k.is_active {
            Some(KeyRefusal::Disabled)
        } else if k.expires_at matches Some(x) && x < now {
            Some(KeyRefusal::Expired)
        } else if k.key_type == KeyType::Test {
            Some(KeyRefusal::TestKey)
        } else {
            None
        },
    }
}

/// `e` is the error sent for refusal `why`.
pub open spec fn refusal_error(e: AppError, why: KeyRefusal) -> bool {
    match why {
        KeyRefusal::Invalid => unauthorized(e, "invalid API key"@),
        KeyRefusal::Disabled => unauthorized(e, "API key is disabled"@),
        KeyRefusal::Expired => unauthorized(e, "API key has expired"@),
        KeyRefusal::TestKey => forbidden(e, "test API keys are not permitted for API access"@),
    }
}

/// Admits the stored key found for a presented key hash, at `now` (Unix
/// microseconds): `401 invalid API key` when none was found, `401 API key
/// is disabled`, `401 API key has expired`, `403 test API keys are not
/// permitted for API access`.
pub fn admit_api_key(found: Option<ApiKey>, now: i64) -> (r: Result<ApiKey, AppError>)
    ensures
        match key_refusal(found, now) {
            None => r == Ok::<ApiKey, AppError>(found->0),
            Some(why) => r matches Err(e) && refusal_error(e, why),
        },
{
    let k = match found {
        None => {
            return Err(AppError::Unauthorized("invalid API key".to_owned()));
        },
        Some(k) => k,
    };
    if !k.is_active {
        return Err(AppError::Unauthorized("API key is disabled".to_owned()));
    }
    match k.expires_at {
        Some(x) => {
            if x < now {
                return Err(AppError::Unauthorized("API key has expired".to_owned()));
            }
        },
        None => {},
    }
    if k.key_type.is_test() {
        return Err(AppError::Forbidden("test API keys are not permitted for API access".to_owned()));
    }
    Ok(k)
}

/// First step of the API-key middleware.
#[derive(Debug, Clone, PartialEq, Eq)]
pub enum KeyAuthStart {
    /// The path is excluded; pass the request on.
    Skip,
    /// Look up the stored key with this hash.
    Lookup(String),
    /// Refuse the request.
    Reject(AppError),
}

/// Starts API-key authentication: excluded paths pass; otherwise the
/// presented key (missing or empty: `401 missing API key`) is hashed for
/// lookup.
pub fn api_key_auth_start(path: &str, h: &CredentialHeaders) -> (r: KeyAuthStart)
    ensures
        is_excluded(path@) ==> r == KeyAuthStart::Skip,
        !is_excluded(path@) ==> match presented_api_key(*h) {
            Some(k) => if k.len() == 0 {
                r matches KeyAuthStart::Reject(e) && unauthorized(e, "missing API key"@)
            } else {
                r matches KeyAuthStart::Lookup(hash) && hash@ == blake2_hex(encode_utf8(k))
            },
            None => r matches KeyAuthStart::Reject(e) && unauthorized(e, "missing API key"@),
        },
{
    if is_excluded_path(path) {
        return KeyAuthStart::Skip;
    }
    match api_key_credential(h) {
        None => KeyAuthStart::Reject(AppError::Unauthorized("missing API key".to_owned())),
        Some(raw) => {
            if raw.as_str().unicode_len() == 0 {
                KeyAuthStart::Reject(AppError::Unauthorized("missing API key".to_owned()))
            } else {
                KeyAuthStart::Lookup(hash_api_key(raw.as_str()))
            }
        },
    }
}

/// First step of the inference middleware.
#[derive(Debug, Clone, PartialEq, Eq)]
pub enum InferAuthStart {
    /// The path is excluded; pass the request on.
    Skip,
    /// An API key was presented: look up the stored key with this hash.
    LookupKey(String),
    /// No API key: verify this session token.
    VerifyToken(String),
    /// Refuse the request.
    Reject(AppError),
}

/// The session token of a request: the bearer token, else the access cookie.
pub open spec fn session_token(h: CredentialHeaders) -> Option<Seq<char>> {
    if header_bearer(h.authorization) is Some {
        header_bearer(h.authorization)
    } else {
        access_cookie(h.cookies@.map_values(|s: String| s@))
    }
}

fn session_token_exec(h: &CredentialHeaders) -> (r: Option<String>)
    ensures
        header_text(r) == session_token(*h),
{
    let b = bearer_of(&h.authorization);
    if b.is_some() {
        return b;
    }
    extract_access_cookie(&h.cookies)
}

/// Starts inference authentication: excluded paths pass; a presented API
/// key (empty: `401 missing API key`) is hashed for lookup; otherwise the
/// session token is to be verified (none: `401 missing API key or session
/// token`).
pub fn infer_auth_start(path: &str, h: &CredentialHeaders) -> (r: InferAuthStart)
    ensures
        is_excluded(path@) ==> r == InferAuthStart::Skip,
        !is_excluded(path@) ==> match presented_infer_key(*h) {
            Some(k) => if k.len() == 0 {
                r matches InferAuthStart::Reject(e) && unauthorized(e, "missing API key"@)
            } else {
                r matches InferAuthStart::LookupKey(hash) && hash@ == blake2_hex(encode_utf8(k))
            },
            None => match session_token(*h) {
                Some(t) => r matches InferAuthStart::VerifyToken(s) && s@ == t,
                None => r matches InferAuthStart::Reject(e) && unauthorized(
                    e,
                    "missing API key or session token"@,
                ),
            },
        },
{
    if is_excluded_path(path) {
        return InferAuthStart::Skip;
    }
    match infer_key_credential(h) {
        Some(raw) => {
            if raw.as_str().unicode_len() == 0 {
                InferAuthStart::Reject(AppError::Unauthorized("missing API key".to_owned()))
            } else {
                InferAuthStart::LookupKey(hash_api_key(raw.as_str()))
            }
        },
        None => match session_token_exec(h) {
            Some(t) => InferAuthStart::VerifyToken(t),
            None => InferAuthStart::Reject(
                AppError::Unauthorized("missing API key or session token".to_owned()),
            ),
        },
    }
}

/// Finishes inference authentication by API key.
pub fn infer_key_finish(found: Option<ApiKey>, now: i64) -> (r: Result<InferCaller, AppError>)
    ensures
        match key_refusal(found, now) {
            None => r == Ok::<InferCaller, AppError>(InferCaller::ApiKey(found->0)),
            Some(why) => r matches Err(e) && refusal_error(e, why),
        },
{
    match admit_api_key(found, now) {
        Ok(k) => Ok(InferCaller::ApiKey(k)),
        Err(e) => Err(e),
    }
}

/// Finishes inference authentication by session token: a token that did
/// not verify is `401 invalid or expired token`; a revoked session is `401
/// session has been revoked`; without `api_test` the caller gets `403
/// api_test permission required to call inference endpoints`.
pub fn infer_session_finish(decoded: Option<Claims>, revoked: bool) -> (r: Result<InferCaller, AppError>)
    ensures
        match decoded {
            None => r matches Err(e) && unauthorized(e, "invalid or expired token"@),
            Some(c) => if revoked {
                r matches Err(e) && unauthorized(e, "session has been revoked"@)
            } else if !holds(c.permissions@, "api_test"@) {
                r matches Err(e) && forbidden(
                    e,
                    "api_test permission required to call inference endpoints"@,
                )
            } else {
                r == Ok::<InferCaller, AppError>(InferCaller::Session(c))
            },
        },
{
    let c = match decoded {
        None => {
            return Err(AppError::Unauthorized("invalid or expired token".to_owned()));
        },
        Some(c) => c,
    };
    if revoked {
        return Err(AppError::Unauthorized("session has been revoked".to_owned()));
    }
    if !has_permission(&c, "api_test") {
        return Err(
            AppError::Forbidden("api_test permission required to call inference endpoints".to_owned()),
        );
    }
    Ok(InferCaller::Session(c))
}

// ── Session middleware ───────────────────────────────────────────────────────

/// The session token for the session middleware: bearer token, else access
/// cookie; none is `401 missing or invalid Authorization header`.
pub fn jwt_token(h: &CredentialHeaders) -> (r: Result<String, AppError>)
    ensures
        match session_token(*h) {
            Some(t) => r matches Ok(s) && s@ == t,
            None => r matches Err(e) && unauthorized(e, "missing or invalid Authorization header"@),
        },
{
    match session_token_exec(h) {
        Some(t) => Ok(t),
        None => Err(AppError::Unauthorized("missing or invalid Authorization header".to_owned())),
    }
}

/// Result of looking a session up in the revocation list.
#[derive(Debug, Clone, Copy, PartialEq, Eq)]
pub enum Revocation {
    /// No revocation list is configured.
    NotChecked,
    /// The session is not revoked.
    Clear,
    /// The session is revoked.
    Revoked,
    /// The revocation list could not be read.
    Unavailable,
}

/// Finishes session authentication (fail-closed on an unreadable
/// revocation list): a token that did not verify is `401 invalid or expired
/// token`; a revoked one is `401 token has been revoked`; an unreadable list
/// is `503 token revocation check unavailable`.
pub fn jwt_auth_finish(decoded: Option<Claims>, revocation: Revocation) -> (r: Result<Claims, AppError>)
    ensures
        match decoded {
            None => r matches Err(e) && unauthorized(e, "invalid or expired token"@),
            Some(c) => match revocation {
                Revocation::Revoked => r matches Err(e) && unauthorized(e, "token has been revoked"@),
                Revocation::Unavailable => r matches Err(AppError::ServiceUnavailable(m)) && m@
                    == "token revocation check unavailable"@,
                _ => r == Ok::<Claims, AppError>(c),
            },
        },
{
    let c = match decoded {
        None => {
            return Err(AppError::Unauthorized("invalid or expired token".to_owned()));
        },
        Some(c) => c,
    };
    match revocation {
        Revocation::Revoked => Err(AppError::Unauthorized("token has been revoked".to_owned())),
        Revocation::Unavailable => Err(
            AppError::ServiceUnavailable("token revocation check unavailable".to_owned()),
        ),
        _ => Ok(c),
    }
}

} // verus!
