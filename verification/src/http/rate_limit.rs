//! Per-key rate limiting decisions (requests per minute over a sliding
//! window, tokens per minute per calendar minute).
//!
//! The counters live in the key-value store; the caller runs each check the
//! plan asks for and hands its outcome back.

use vstd::prelude::*;

use crate::domain::constants::{ratelimit_rpm_key, ratelimit_tpm_key, TPM_ESTIMATED_TOKENS};
use crate::domain::entities::ApiKey;
use crate::codec::uuid_hyphenated;
use crate::http::inference::is_str;
use crate::http::ollama::is_num;
use crate::json::Json;
use crate::text::{decimal, int_decimal, u64_to_decimal};

verus! {

/// Length of the requests-per-minute sliding window, in milliseconds.
pub const RPM_WINDOW_MS: i64 = 60_000;

/// TTL, in seconds, of the sliding-window set (two seconds of clock slack).
pub const RPM_SET_TTL_SECS: u64 = 62;

/// TTL, in seconds, of a tokens-per-minute counter.
pub const TPM_COUNTER_TTL_SECS: u64 = 120;

/// Body message of the answer sent when the counters cannot be reached.
pub const ERR_RATE_LIMIT_UNAVAILABLE: &'static str = "rate limiting service unavailable";

/// The minute number of a Unix time in seconds.
pub open spec fn minute_of(now_secs: u64) -> u64 {
    now_secs / 60
}

/// Seconds left until the next minute starts, in `1..=60`.
pub open spec fn secs_to_next_minute(now_secs: u64) -> u64 {
    (60 - now_secs % 60) as u64
}

/// The current minute number.
pub fn current_minute(now_secs: u64) -> (r: u64)
    ensures
        r == minute_of(now_secs),
{
    now_secs / 60
}

/// Seconds until the next minute starts.
pub fn seconds_until_next_minute(now_secs: u64) -> (r: u64)
    ensures
        r == secs_to_next_minute(now_secs),
        1 <= r <= 60,
{
    60 - now_secs % 60
}

/// The 429 answer of an exceeded limit: which limit, its value, and the
/// seconds to wait (also sent as `Retry-After`).
#[derive(Debug, Clone, PartialEq, Eq)]
pub struct RateLimitReply {
    pub limit_type: String,
    pub limit: u64,
    pub retry_after_secs: u64,
}

/// The next step of rate limiting a request.
#[derive(Debug, Clone, PartialEq, Eq)]
pub enum RateStep {
    /// Let the request through.
    Admit,
    /// The counters cannot be used: answer 503 (fail closed).
    Unavailable,
    /// Record the request in the sliding-window set `key` (dropping members
    /// scored at or below `window_start_ms`, scoring the new one `now_ms`) and
    /// report the set's size; it passes when the size is at most `limit`.
    CheckRpm { key: String, window_start_ms: i64, now_ms: i64, limit: u64 },
    /// Reserve `estimated_tokens` on counter `key` unless it already holds
    /// `limit` or more; report the value before the reservation, or a
    /// negative number when it was refused.
    CheckTpm { key: String, limit: u64, estimated_tokens: i64 },
    /// Answer 429.
    Limited(RateLimitReply),
}

/// The requests-per-minute limit of a key, if it has one.
pub open spec fn rpm_limit(key: ApiKey) -> Option<u64> {
    if key.rate_limit_rpm > 0 {
        Some(key.rate_limit_rpm as u64)
    } else {
        None
    }
}

/// The tokens-per-minute limit of a key, if it has one.
pub open spec fn tpm_limit(key: ApiKey) -> Option<u64> {
    if key.rate_limit_tpm > 0 {
        Some(key.rate_limit_tpm as u64)
    } else {
        None
    }
}

/// `r` is the tokens-per-minute step for `key` at `now_secs`: admit when the
/// key has no such limit, else reserve on this minute's counter.
pub open spec fn is_tpm_step(r: RateStep, key: ApiKey, now_secs: u64) -> bool {
    match tpm_limit(key) {
        None => r == RateStep::Admit,
        Some(l) => r matches RateStep::CheckTpm { key: k, limit, estimated_tokens } && limit == l
            && estimated_tokens == TPM_ESTIMATED_TOKENS && k@ == "veronex:ratelimit:tpm:"@
            + uuid_hyphenated(key.id) + ":"@ + int_decimal(minute_of(now_secs) as int),
    }
}

/// `r` is the requests-per-minute check for `key` at `now_ms`.
pub open spec fn is_rpm_step(r: RateStep, key: ApiKey, now_ms: i64) -> bool {
    r matches RateStep::CheckRpm { key: s, window_start_ms, now_ms: n, limit } && Some(limit) == rpm_limit(
        key,
    ) && window_start_ms == now_ms - RPM_WINDOW_MS && n == now_ms && s@ == "veronex:ratelimit:rpm:"@
        + uuid_hyphenated(key.id)
}

/// `r` is the 429 answer for limit kind `kind` with value `limit`.
pub open spec fn is_limited(r: RateStep, kind: Seq<char>, limit: u64, retry_after: u64) -> bool {
    r matches RateStep::Limited(reply) && reply.limit_type@ == kind && reply.limit == limit
        && reply.retry_after_secs == retry_after
}

fn tpm_step(key: &ApiKey, now_secs: u64) -> (r: RateStep)
    ensures
        is_tpm_step(r, *key, now_secs),
{
    if key.rate_limit_tpm > 0 {
        let minute = current_minute(now_secs);
        let k = ratelimit_tpm_key(key.id, minute as i64);
        RateStep::CheckTpm { key: k, limit: key.rate_limit_tpm as u64, estimated_tokens: TPM_ESTIMATED_TOKENS }
    } else {
        RateStep::Admit
    }
}

/// First step for a request: without an authenticated key the request
/// passes; without the counter store it is refused (503); then the
/// requests-per-minute check, if the key has that limit, else the
/// tokens-per-minute step.
pub fn rate_limit_start(key: Option<&ApiKey>, store_available: bool, now_ms: i64, now_secs: u64) -> (r: RateStep)
    requires
        now_ms >= i64::MIN + RPM_WINDOW_MS,
    ensures
        match key {
            None => r == RateStep::Admit,
            Some(k) => if !store_available {
                r == RateStep::Unavailable
            } else if rpm_limit(*k) is Some {
                is_rpm_step(r, *k, now_ms)
            } else {
                is_tpm_step(r, *k, now_secs)
            },
        },
{
    match key {
        None => RateStep::Admit,
        Some(k) => {
            if !store_available {
                return RateStep::Unavailable;
            }
            if k.rate_limit_rpm > 0 {
                RateStep::CheckRpm {
                    key: ratelimit_rpm_key(k.id),
                    window_start_ms: now_ms - RPM_WINDOW_MS,
                    now_ms,
                    limit: k.rate_limit_rpm as u64,
                }
            } else {
                tpm_step(k, now_secs)
            }
        },
    }
}

/// Step after the requests-per-minute check reported `window_count` (`None`
/// when the check failed): a failed check is 503; a count above the limit
/// is 429 `rpm` with a 60-second retry; otherwise on to the tokens check.
pub fn after_rpm_check(key: &ApiKey, window_count: Option<u64>, now_secs: u64) -> (r: RateStep)
    requires
        rpm_limit(*key) is Some,
    ensures
        match window_count {
            None => r == RateStep::Unavailable,
            Some(c) => if c > rpm_limit(*key)->0 {
                is_limited(r, "rpm"@, rpm_limit(*key)->0, 60)
            } else {
                is_tpm_step(r, *key, now_secs)
            },
        },
{
    match window_count {
        None => RateStep::Unavailable,
        Some(c) => {
            let limit = key.rate_limit_rpm as u64;
            if c > limit {
                RateStep::Limited(RateLimitReply { limit_type: "rpm".to_owned(), limit, retry_after_secs: 60 })
            } else {
                tpm_step(key, now_secs)
            }
        },
    }
}

/// Step after the tokens-per-minute reservation reported `reserved` (`None`
/// when the check failed): a failed check is 503; a refused reservation
/// (negative) is 429 `tpm` with a retry at the next minute; otherwise the
/// request is admitted.
pub fn after_tpm_check(key: &ApiKey, reserved: Option<i64>, now_secs: u64) -> (r: RateStep)
    requires
        tpm_limit(*key) is Some,
    ensures
        match reserved {
            None => r == RateStep::Unavailable,
            Some(v) => if v < 0 {
                is_limited(r, "tpm"@, tpm_limit(*key)->0, secs_to_next_minute(now_secs))
            } else {
                r == RateStep::Admit
            },
        },
{
    match reserved {
        None => RateStep::Unavailable,
        Some(v) => {
            if v < 0 {
                RateStep::Limited(
                    RateLimitReply {
                        limit_type: "tpm".to_owned(),
                        limit: key.rate_limit_tpm as u64,
                        retry_after_secs: seconds_until_next_minute(now_secs),
                    },
                )
            } else {
                RateStep::Admit
            }
        },
    }
}

impl RateLimitReply {
    /// The `429` body: `error: "rate_limit_exceeded"`, the limit type, the
    /// limit, and the seconds to wait.
    pub fn body(&self) -> (r: Json)
        ensures
            r matches Json::Object(es) && es@.len() == 4 && {
                &&& es@[0].0@ == "error"@ && is_str(es@[0].1, "rate_limit_exceeded"@)
                &&& es@[1].0@ == "limit_type"@ && is_str(es@[1].1, self.limit_type@)
                &&& es@[2].0@ == "limit"@ && is_num(es@[2].1, self.limit as nat)
                &&& es@[3].0@ == "retry_after_secs"@ && is_num(es@[3].1, self.retry_after_secs as nat)
            },
    {
        let mut es: Vec<(String, Json)> = Vec::new();
        es.push(("error".to_owned(), Json::String("rate_limit_exceeded".to_owned())));
        es.push(("limit_type".to_owned(), Json::String(self.limit_type.as_str().to_owned())));
        es.push(("limit".to_owned(), Json::Number(u64_to_decimal(self.limit))));
        es.push(("retry_after_secs".to_owned(), Json::Number(u64_to_decimal(self.retry_after_secs))));
        Json::Object(es)
    }

    /// The `Retry-After` header value: the seconds to wait.
    pub fn retry_after_header(&self) -> (r: String)
        ensures
            r@ == decimal(self.retry_after_secs as nat),
    {
        u64_to_decimal(self.retry_after_secs)
    }
}

} // verus!
