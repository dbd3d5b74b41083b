//! API key management: what a new key is made of, what a listing shows,
//! who may change a key, and how a key patch is read.

use vstd::prelude::*;
use vstd::string::*;

use crate::domain::entities::ApiKey;
use crate::domain::enums::{KeyTier, KeyType};
use crate::domain::services::GeneratedApiKey;
use crate::http::error::AppError;
use crate::text::{lower, owned, str_eq};

verus! {

/// Body of `POST /v1/keys`. Limits default to 0 (unlimited), the tier to
/// paid; the expiry is in Unix microseconds.
#[derive(Debug, Clone, PartialEq, Eq)]
pub struct CreateKeyRequest {
    pub tenant_id: String,
    pub name: String,
    pub rate_limit_rpm: i32,
    pub rate_limit_tpm: i32,
    pub expires_at: Option<i64>,
    pub tier: KeyTier,
}

/// Reply of `POST /v1/keys`: the plaintext key, shown this once.
#[derive(Debug, Clone, PartialEq, Eq)]
pub struct CreateKeyResponse {
    pub id: u128,
    pub key: String,
    pub key_prefix: String,
    pub tenant_id: String,
    pub created_at: i64,
}

/// One key of a listing: never its hash or plaintext.
#[derive(Debug, Clone, PartialEq, Eq)]
pub struct KeySummary {
    pub id: u128,
    pub key_prefix: String,
    pub tenant_id: String,
    pub name: String,
    pub is_active: bool,
    pub rate_limit_rpm: i32,
    pub rate_limit_tpm: i32,
    pub expires_at: Option<i64>,
    pub created_at: i64,
    pub tier: KeyTier,
}

/// Refusal of a negative requests-per-minute limit.
pub const ERR_NEGATIVE_RPM: &'static str = "rate_limit_rpm must be non-negative";

/// Refusal of a negative tokens-per-minute limit.
pub const ERR_NEGATIVE_TPM: &'static str = "rate_limit_tpm must be non-negative";

/// Refusal of a change to another tenant's key.
pub const ERR_NOT_YOUR_KEY: &'static str = "not your key";

/// The stored key of a creation request: the generated parts, the request's
/// fields, active, standard, created at `now`.
pub open spec fn is_new_key(k: ApiKey, req: CreateKeyRequest, g: GeneratedApiKey, now: i64) -> bool {
    &&& k.id == g.id
    &&& k.key_hash@ == g.key_hash@
    &&& k.key_prefix@ == g.key_prefix@
    &&& k.tenant_id@ == req.tenant_id@
    &&& k.name@ == req.name@
    &&& k.is_active
    &&& k.rate_limit_rpm == req.rate_limit_rpm
    &&& k.rate_limit_tpm == req.rate_limit_tpm
    &&& k.expires_at == req.expires_at
    &&& k.created_at == now
    &&& k.deleted_at is None
    &&& k.key_type == KeyType::Standard
    &&& k.tier == req.tier
    &&& k.account_id is None
}

/// Makes a new key from a creation request and freshly generated parts:
/// negative limits are refused (requests-per-minute first); otherwise the
/// key to store and the one-time reply.
pub fn new_api_key(req: CreateKeyRequest, generated: GeneratedApiKey, now: i64) -> (r: Result<
    (ApiKey, CreateKeyResponse),
    AppError,
>)
    ensures
        req.rate_limit_rpm < 0 ==> (r matches Err(e) && e.is_bad_request(ERR_NEGATIVE_RPM@)),
        req.rate_limit_rpm >= 0 && req.rate_limit_tpm < 0 ==> (r matches Err(e) && e.is_bad_request(
            ERR_NEGATIVE_TPM@,
        )),
        req.rate_limit_rpm >= 0 && req.rate_limit_tpm >= 0 ==> (r matches Ok((k, resp)) && {
            &&& is_new_key(k, req, generated, now)
            &&& resp.id == generated.id
            &&& resp.key@ == generated.plaintext@
            &&& resp.key_prefix@ == generated.key_prefix@
            &&& resp.tenant_id@ == req.tenant_id@
            &&& resp.created_at == now
        }),
{
    if req.rate_limit_rpm < 0 {
        return Err(AppError::BadRequest(owned(ERR_NEGATIVE_RPM)));
    }
    if req.rate_limit_tpm < 0 {
        return Err(AppError::BadRequest(owned(ERR_NEGATIVE_TPM)));
    }
    let GeneratedApiKey { id, plaintext, key_hash, key_prefix } = generated;
    let key = ApiKey {
        id,
        key_hash,
        key_prefix: owned(key_prefix.as_str()),
        tenant_id: owned(req.tenant_id.as_str()),
        name: req.name,
        is_active: true,
        rate_limit_rpm: req.rate_limit_rpm,
        rate_limit_tpm: req.rate_limit_tpm,
        expires_at: req.expires_at,
        created_at: now,
        deleted_at: None,
        key_type: KeyType::Standard,
        tier: req.tier,
        account_id: None,
    };
    let resp = CreateKeyResponse { id, key: plaintext, key_prefix, tenant_id: req.tenant_id, created_at: now };
    Ok((key, resp))
}

/// `s` shows key `k`.
pub open spec fn summarizes(s: KeySummary, k: ApiKey) -> bool {
    &&& s.id == k.id
    &&& s.key_prefix@ == k.key_prefix@
    &&& s.tenant_id@ == k.tenant_id@
    &&& s.name@ == k.name@
    &&& s.is_active == k.is_active
    &&& s.rate_limit_rpm == k.rate_limit_rpm
    &&& s.rate_limit_tpm == k.rate_limit_tpm
    &&& s.expires_at == k.expires_at
    &&& s.created_at == k.created_at
    &&& s.tier == k.tier
}

/// The keys a listing shows: all but test keys, in order.
pub open spec fn listed_keys(ks: Seq<ApiKey>) -> Seq<ApiKey>
    decreases ks.len(),
{
    if ks.len() == 0 {
        Seq::empty()
    } else if ks.last().key_type == KeyType::Test {
        listed_keys(ks.drop_last())
    } else {
        listed_keys(ks.drop_last()).push(ks.last())
    }
}

/// The summaries of a tenant's keys: test keys are left out; the others
/// are shown in order, without hash or plaintext.
pub fn key_summaries(keys: &Vec<ApiKey>) -> (r: Vec<KeySummary>)
    ensures
        r@.len() == listed_keys(keys@).len(),
        forall|i: int| 0 <= i < r@.len() ==> summarizes(#[trigger] r@[i], listed_keys(keys@)[i]),
{
    let mut out: Vec<KeySummary> = Vec::new();
    let n = keys.len();
    let mut i: usize = 0;
    while i < n
        invariant
            n == keys@.len(),
            i <= n,
            out@.len() == listed_keys(keys@.subrange(0, i as int)).len(),
            forall|k: int| 0 <= k < out@.len() ==> summarizes(#[trigger] out@[k], listed_keys(keys@.subrange(0, i as int))[k]),
        decreases n - i,
    {
        let ghost pre = listed_keys(keys@.subrange(0, i as int));
        assert(keys@.subrange(0, i + 1).drop_last() =~= keys@.subrange(0, i as int));
        assert(keys@.subrange(0, i + 1).last() == keys@[i as int]);
        let k = &keys[i];
        if !k.key_type.is_test() {
            let s = KeySummary {
                id: k.id,
                key_prefix: owned(k.key_prefix.as_str()),
                tenant_id: owned(k.tenant_id.as_str()),
                name: owned(k.name.as_str()),
                is_active: k.is_active,
                rate_limit_rpm: k.rate_limit_rpm,
                rate_limit_tpm: k.rate_limit_tpm,
                expires_at: k.expires_at,
                created_at: k.created_at,
                tier: k.tier,
            };
            out.push(s);
            let ghost post = pre.push(keys@[i as int]);
            assert forall|j: int| 0 <= j < out@.len() implies summarizes(#[trigger] out@[j], post[j]) by {
                if j < pre.len() {
                    assert(post[j] == pre[j]);
                }
            }
        }
        i += 1;
    }
    assert(keys@.subrange(0, n as int) =~= keys@);
    out
}

/// A key may be changed or deleted only by its own tenant.
pub fn check_key_owner(key_tenant: &str, caller_tenant: &str) -> (r: Result<(), AppError>)
    ensures
        key_tenant@ == caller_tenant@ <==> r is Ok,
        r matches Err(e) ==> (e matches AppError::Forbidden(m) && m@ == ERR_NOT_YOUR_KEY@),
{
    if str_eq(key_tenant, caller_tenant) {
        Ok(())
    } else {
        Err(AppError::Forbidden(owned(ERR_NOT_YOUR_KEY)))
    }
}

/// The tier of a key patch: absent, or parsed (case-insensitively); an
/// unknown tier is refused with the parser's message.
pub fn patch_tier(tier: Option<&str>) -> (r: Result<Option<KeyTier>, AppError>)
    ensures
        match tier {
            None => r == Ok::<Option<KeyTier>, AppError>(None),
            Some(t) => match KeyTier::from_name(lower(t@)) {
                Some(x) => r == Ok::<Option<KeyTier>, AppError>(Some(x)),
                None => r matches Err(e) && e.is_bad_request("invalid tier: "@ + lower(t@)),
            },
        },
{
    match tier {
        None => Ok(None),
        Some(t) => match KeyTier::parse_str(t) {
            Ok(x) => Ok(Some(x)),
            Err(e) => Err(AppError::BadRequest(e)),
        },
    }
}

} // verus!
