//! Input validation and small request-shaping rules shared by the handlers.

use vstd::prelude::*;
use vstd::string::*;

use crate::domain::enums::{FinishReason, ProviderType};
use crate::http::constants::{ERR_MODEL_INVALID, ERR_PROMPT_TOO_LARGE, MAX_MODEL_NAME_BYTES, MAX_PROMPT_BYTES};
use crate::http::error::AppError;
use crate::text::{
    lower,
    concat2, contains, contains_seq, is_alnum, is_digit, is_lower, owned, str_eq, to_lowercase,
    trim, trim_str, unicode_lowercase,
};

verus! {

// ── Model names and content size ─────────────────────────────────────────────

/// A model name is accepted when it is non-empty and at most 256 bytes long.
pub fn validate_model_name(model: &str) -> (r: Result<(), &'static str>)
    ensures
        match r {
            Ok(()) => model@.len() > 0 && model.len() <= MAX_MODEL_NAME_BYTES,
            Err(m) => !(model@.len() > 0 && model.len() <= MAX_MODEL_NAME_BYTES) && m@
                == ERR_MODEL_INVALID@,
        },
{
    if model.unicode_len() == 0 || model.len() > MAX_MODEL_NAME_BYTES {
        return Err(ERR_MODEL_INVALID);
    }
    Ok(())
}

/// The total content size is accepted when it is at most 1 MB.
pub fn validate_content_length(total_bytes: usize) -> (r: Result<(), &'static str>)
    ensures
        match r {
            Ok(()) => total_bytes <= MAX_PROMPT_BYTES,
            Err(m) => total_bytes > MAX_PROMPT_BYTES && m@ == ERR_PROMPT_TOO_LARGE@,
        },
{
    if total_bytes > MAX_PROMPT_BYTES {
        return Err(ERR_PROMPT_TOO_LARGE);
    }
    Ok(())
}

/// Rough token estimate of a text: its number of characters divided by
/// four (an underestimate for CJK text).
pub fn estimate_tokens(text: &str) -> (r: usize)
    ensures
        r == text@.len() / 4,
{
    text.unicode_len() / 4
}

/// The name fragments that mark a vision-capable model.
pub open spec fn vision_marker(lower_name: Seq<char>) -> bool {
    ||| contains_seq(lower_name, "-vl"@)
    ||| contains_seq(lower_name, ":vl"@)
    ||| contains_seq(lower_name, "llava"@)
    ||| contains_seq(lower_name, "moondream"@)
    ||| contains_seq(lower_name, "cogvlm"@)
    ||| contains_seq(lower_name, "bakllava"@)
    ||| contains_seq(lower_name, "minicpm-v"@)
    ||| contains_seq(lower_name, "vision"@)
    ||| contains_seq(lower_name, "ocr"@)
}

/// A lowercased model name marks a vision model exactly when it contains one
/// of `-vl`, `:vl`, `llava`, `moondream`, `cogvlm`, `bakllava`, `minicpm-v`,
/// `vision` or `ocr`; in particular every name containing `vision` does.
pub proof fn lemma_vision_markers(lower_name: Seq<char>)
    ensures
        vision_marker(lower_name) <==> (contains_seq(lower_name, "-vl"@) || contains_seq(lower_name, ":vl"@)
            || contains_seq(lower_name, "llava"@) || contains_seq(lower_name, "moondream"@) || contains_seq(
            lower_name,
            "cogvlm"@,
        ) || contains_seq(lower_name, "bakllava"@) || contains_seq(lower_name, "minicpm-v"@) || contains_seq(
            lower_name,
            "vision"@,
        ) || contains_seq(lower_name, "ocr"@)),
        contains_seq(lower_name, "vision"@) ==> vision_marker(lower_name),
{
}

/// Whether a model is known to accept images, judged from its lowercased name.
pub fn is_vision_model(model_name: &str) -> (r: bool)
    ensures
        r == vision_marker(unicode_lowercase(model_name@)),
        ({
            let l = unicode_lowercase(model_name@);
            r == (contains_seq(l, "-vl"@) || contains_seq(l, ":vl"@) || contains_seq(l, "llava"@) || contains_seq(
                l,
                "moondream"@,
            ) || contains_seq(l, "cogvlm"@) || contains_seq(l, "bakllava"@) || contains_seq(l, "minicpm-v"@)
                || contains_seq(l, "vision"@) || contains_seq(l, "ocr"@))
        }),
        vstd::utf8::is_ascii_chars(model_name@) ==> r == vision_marker(lower(model_name@)),
{
    let lower = to_lowercase(model_name);
    let l = lower.as_str();
    contains(l, "-vl") || contains(l, ":vl") || contains(l, "llava") || contains(l, "moondream")
        || contains(l, "cogvlm") || contains(l, "bakllava") || contains(l, "minicpm-v") || contains(
        l,
        "vision",
    ) || contains(l, "ocr")
}

// ── Query parameters ─────────────────────────────────────────────────────────

/// The `hours` window of a metrics query must lie in `1..=8760`.
pub fn validate_hours(hours: u32) -> (r: Result<(), AppError>)
    ensures
        match r {
            Ok(()) => 1 <= hours <= 8760,
            Err(e) => !(1 <= hours <= 8760) && e.is_bad_request("hours must be between 1 and 8760"@),
        },
{
    if hours == 0 || hours > 8760 {
        return Err(AppError::BadRequest(owned("hours must be between 1 and 8760")));
    }
    Ok(())
}

// ── Usernames and slugs ──────────────────────────────────────────────────────

/// Characters allowed in an account login name.
pub open spec fn login_char(c: char) -> bool {
    is_alnum(c) || c == '_' || c == '.' || c == '-'
}

/// The first rule a login name breaks, judged on the trimmed name.
pub open spec fn login_name_problem(username: Seq<char>, trimmed_bytes: usize) -> Option<Seq<char>> {
    let t = trim(username);
    if t.len() == 0 {
        Some("username must not be empty"@)
    } else if trimmed_bytes > 64 {
        Some("username too long"@)
    } else if !(forall|i: int| 0 <= i < t.len() ==> login_char(#[trigger] t[i])) {
        Some("username must contain only alphanumeric characters, underscores, dots, or hyphens"@)
    } else {
        None
    }
}

/// Validates a login name: after trimming, non-empty, at most 64 bytes, and
/// only ASCII letters, digits, `_`, `.` or `-`.
pub fn validate_username(username: &str) -> (r: Result<(), AppError>)
    ensures
        ({
            let t = trim(username@);
            let bytes = vstd::utf8::encode_utf8(t).len() as usize;
            match r {
                Ok(()) => login_name_problem(username@, bytes) is None,
                Err(e) => login_name_problem(username@, bytes) matches Some(m) && e.is_bad_request(m),
            }
        }),
{
    let trimmed = trim_str(username);
    let n = trimmed.unicode_len();
    if n == 0 {
        return Err(AppError::BadRequest(owned("username must not be empty")));
    }
    if trimmed.len() > 64 {
        return Err(AppError::BadRequest(owned("username too long")));
    }
    let mut i: usize = 0;
    while i < n
        invariant
            n == trimmed@.len(),
            n > 0,
            trimmed@ == trim(username@),
            trimmed.len() <= 64,
            i <= n,
            forall|j: int| 0 <= j < i ==> login_char(#[trigger] trimmed@[j]),
        decreases n - i,
    {
        let c = trimmed.get_char(i);
        if !(('a' <= c && c <= 'z') || ('A' <= c && c <= 'Z') || ('0' <= c && c <= '9') || c == '_'
            || c == '.' || c == '-') {
            assert(!login_char(trimmed@[i as int]));
            assert(!(forall|j: int| 0 <= j < trimmed@.len() ==> login_char(#[trigger] trimmed@[j])));
            return Err(
                AppError::BadRequest(
                    owned(
                        "username must contain only alphanumeric characters, underscores, dots, or hyphens",
                    ),
                ),
            );
        }
        i += 1;
    }
    Ok(())
}

/// Characters allowed in an MCP server slug after the first.
pub open spec fn slug_char(c: char) -> bool {
    is_lower(c) || is_digit(c) || c == '_'
}

/// The first rule a slug breaks: it must match `[a-z][a-z0-9_]*` and have at
/// most 64 bytes.
pub open spec fn slug_problem(s: Seq<char>, bytes: nat) -> Option<Seq<char>> {
    if s.len() == 0 || !is_lower(s[0]) || !(forall|i: int| 0 <= i < s.len() ==> slug_char(#[trigger] s[i])) {
        Some("slug must match [a-z][a-z0-9_]*"@)
    } else if bytes > 64 {
        Some("slug must be 64 characters or fewer"@)
    } else {
        None
    }
}

/// Validates an MCP server slug.
pub fn validate_slug(slug: &str) -> (r: Result<(), AppError>)
    ensures
        match r {
            Ok(()) => slug_problem(slug@, slug.len() as nat) is None,
            Err(e) => slug_problem(slug@, slug.len() as nat) matches Some(m) && e.is_bad_request(m),
        },
{
    let n = slug.unicode_len();
    let mut ok = n > 0;
    if ok {
        let c0 = slug.get_char(0);
        ok = 'a' <= c0 && c0 <= 'z';
    }
    if ok {
        let mut i: usize = 0;
        while i < n
            invariant
                n == slug@.len(),
                i <= n,
                forall|j: int| 0 <= j < i ==> slug_char(#[trigger] slug@[j]),
            ensures
                i <= n,
                forall|j: int| 0 <= j < i ==> slug_char(#[trigger] slug@[j]),
                i < n ==> !slug_char(slug@[i as int]),
            decreases n - i,
        {
            let c = slug.get_char(i);
            if !(('a' <= c && c <= 'z') || ('0' <= c && c <= '9') || c == '_') {
                break;
            }
            i += 1;
        }
        ok = i == n;
    }
    if !ok {
        return Err(AppError::BadRequest(owned("slug must match [a-z][a-z0-9_]*")));
    }
    if slug.len() > 64 {
        return Err(AppError::BadRequest(owned("slug must be 64 characters or fewer")));
    }
    Ok(())
}

// ── Provider selection ───────────────────────────────────────────────────────

/// The provider type named by a string, ignoring case.
pub open spec fn provider_type_named(lower_name: Seq<char>) -> Option<ProviderType> {
    if lower_name == "ollama"@ {
        Some(ProviderType::Ollama)
    } else if lower_name == "gemini"@ {
        Some(ProviderType::Gemini)
    } else if lower_name == "whisper"@ {
        Some(ProviderType::Whisper)
    } else {
        None
    }
}

/// Parses a provider type string, ignoring case.
pub fn parse_provider_type(s: &str) -> (r: Option<ProviderType>)
    ensures
        r == provider_type_named(unicode_lowercase(s@)),
        vstd::utf8::is_ascii_chars(s@) ==> r == provider_type_named(lower(s@)),
{
    let lower = to_lowercase(s);
    let l = lower.as_str();
    if str_eq(l, "ollama") {
        Some(ProviderType::Ollama)
    } else if str_eq(l, "gemini") {
        Some(ProviderType::Gemini)
    } else if str_eq(l, "whisper") {
        Some(ProviderType::Whisper)
    } else {
        None
    }
}

/// Parses the provider selector of a chat request: `"gemini-free"` selects
/// Gemini on the free tier, `"gemini"` selects Gemini, anything else Ollama.
pub fn parse_provider_str(s: &str) -> (r: (ProviderType, Option<String>))
    ensures
        if s@ == "gemini-free"@ {
            r.0 == ProviderType::Gemini && (r.1 matches Some(t) && t@ == "free"@)
        } else if s@ == "gemini"@ {
            r.0 == ProviderType::Gemini && r.1 is None
        } else {
            r.0 == ProviderType::Ollama && r.1 is None
        },
{
    if str_eq(s, "gemini-free") {
        (ProviderType::Gemini, Some(owned(crate::domain::constants::GEMINI_TIER_FREE)))
    } else if str_eq(s, crate::http::constants::PROVIDER_GEMINI) {
        (ProviderType::Gemini, None)
    } else {
        (ProviderType::Ollama, None)
    }
}

// ── Gemini wire format ───────────────────────────────────────────────────────

/// The Gemini finish reason for a Veronex finish reason (absent means "stop").
pub open spec fn gemini_finish_reason(reason: Seq<char>) -> Seq<char> {
    if reason == "length"@ {
        "MAX_TOKENS"@
    } else if reason == "cancelled"@ {
        "CANCELLED"@
    } else if reason == "error"@ {
        "OTHER"@
    } else {
        "STOP"@
    }
}

/// Maps a Veronex finish reason to the Gemini wire format.
pub fn to_gemini_finish_reason(reason: Option<&str>) -> (r: String)
    ensures
        r@ == gemini_finish_reason(
            match reason {
                Some(x) => x@,
                None => FinishReason::Stop.name(),
            },
        ),
{
    let x = match reason {
        Some(x) => x,
        None => FinishReason::Stop.as_str(),
    };
    if str_eq(x, "length") {
        owned("MAX_TOKENS")
    } else if str_eq(x, "cancelled") {
        owned("CANCELLED")
    } else if str_eq(x, "error") {
        owned("OTHER")
    } else {
        owned("STOP")
    }
}

// ── Errors shown to clients ──────────────────────────────────────────────────

/// The error for an OpenAI endpoint this server does not provide.
pub fn not_implemented(feature: &str) -> (r: AppError)
    ensures
        r matches AppError::NotImplemented(m) && m@ == feature@ + " is not supported by this server"@,
{
    AppError::NotImplemented(concat2(feature, " is not supported by this server"))
}

/// The client-safe category of an internal error message.
pub open spec fn sse_error_category(msg: Seq<char>) -> Seq<char> {
    if contains_seq(msg, "database"@) || contains_seq(msg, "sqlx"@) || contains_seq(msg, "postgres"@) {
        "internal processing error"@
    } else if contains_seq(msg, "reqwest"@) || contains_seq(msg, "connect"@) || contains_seq(msg, "timeout"@) {
        "provider communication error"@
    } else if contains_seq(msg, "capacity"@) || contains_seq(msg, "slot"@) {
        "service at capacity"@
    } else if contains_seq(msg, "cancelled"@) || contains_seq(msg, "canceled"@) {
        "request cancelled"@
    } else if contains_seq(msg, "token"@) && contains_seq(msg, "limit"@) {
        "token limit exceeded"@
    } else {
        "inference failed"@
    }
}

/// Reduces an error message to a fixed, client-safe category for SSE output
/// (whitelist: nothing of the original message is echoed).
pub fn sanitize_sse_error(msg: &str) -> (r: String)
    ensures
        r@ == sse_error_category(msg@),
{
    if contains(msg, "database") || contains(msg, "sqlx") || contains(msg, "postgres") {
        owned("internal processing error")
    } else if contains(msg, "reqwest") || contains(msg, "connect") || contains(msg, "timeout") {
        owned("provider communication error")
    } else if contains(msg, "capacity") || contains(msg, "slot") {
        owned("service at capacity")
    } else if contains(msg, "cancelled") || contains(msg, "canceled") {
        owned("request cancelled")
    } else if contains(msg, "token") && contains(msg, "limit") {
        owned("token limit exceeded")
    } else {
        owned("inference failed")
    }
}

} // verus!
