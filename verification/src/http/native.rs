//! The native inference API (`/v1/inference`): admission of a submission,
//! the events of its token stream, the OpenAI-format replay of a job, and
//! the cap on concurrent streams.

use vstd::prelude::*;
use vstd::string::*;

use crate::domain::enums::ProviderType;
use crate::domain::errors::DomainError;
use crate::domain::value_objects::StreamToken;
use crate::http::constants::{ERR_MODEL_INVALID, ERR_PROMPT_TOO_LARGE, MAX_PROMPT_BYTES, SSE_MAX_CONNECTIONS};
use crate::http::dto::SubmitRequest;
use crate::http::error::AppError;

use crate::http::inference::{byte_len, is_str};
use crate::http::sse::CompletionChunk;
use crate::http::validation::{parse_provider_str, sanitize_sse_error, sse_error_category, validate_content_length, validate_model_name};
use crate::json::Json;
use crate::text::owned;

verus! {

/// Where a submission goes: the provider type and the Gemini tier.
pub open spec fn submit_target(provider: Seq<char>) -> (ProviderType, Option<Seq<char>>) {
    if provider == "gemini-free"@ {
        (ProviderType::Gemini, Some("free"@))
    } else if provider == "gemini"@ {
        (ProviderType::Gemini, None)
    } else {
        (ProviderType::Ollama, None)
    }
}

/// Admission of `POST /v1/inference`: a prompt over 1 MB, then an invalid
/// model name, is refused; otherwise the provider type and Gemini tier the
/// job is submitted with.
pub fn check_submit(req: &SubmitRequest) -> (r: Result<(ProviderType, Option<String>), AppError>)
    ensures
        byte_len(req.prompt@) > MAX_PROMPT_BYTES ==> (r matches Err(e) && e.is_bad_request(ERR_PROMPT_TOO_LARGE@)),
        byte_len(req.prompt@) <= MAX_PROMPT_BYTES && !(req.model@.len() > 0 && byte_len(req.model@)
            <= crate::http::constants::MAX_MODEL_NAME_BYTES) ==> (r matches Err(e) && e.is_bad_request(ERR_MODEL_INVALID@)),
        byte_len(req.prompt@) <= MAX_PROMPT_BYTES && req.model@.len() > 0 && byte_len(req.model@)
            <= crate::http::constants::MAX_MODEL_NAME_BYTES ==> (r matches Ok((t, tier)) && t == submit_target(
            req.provider_type@,
        ).0 && match tier {
            Some(x) => submit_target(req.provider_type@).1 == Some(x@),
            None => submit_target(req.provider_type@).1 is None,
        }),
{
    if validate_content_length(req.prompt.as_str().len()).is_err() {
        return Err(AppError::BadRequest(owned(ERR_PROMPT_TOO_LARGE)));
    }
    if validate_model_name(req.model.as_str()).is_err() {
        return Err(AppError::BadRequest(owned(ERR_MODEL_INVALID)));
    }
    proof {
        reveal_strlit("gemini-free");
        reveal_strlit("gemini");
    }
    Ok(parse_provider_str(req.provider_type.as_str()))
}

/// Message of a stream requested for a malformed job id.
pub const ERR_BAD_JOB_ID: &'static str = "invalid job_id format";

/// One event of a native token stream: its name and data.
#[derive(Debug, Clone, PartialEq, Eq)]
pub struct NativeEvent {
    pub event: &'static str,
    pub data: String,
}

/// The event for one stream item: `done` (no data) for the final token,
/// `token` with the text for another, `error` with the client-safe category
/// for a failure.
pub fn native_stream_event(item: Result<StreamToken, DomainError>) -> (r: NativeEvent)
    ensures
        match item {
            Ok(t) => if t.is_final {
                r.event@ == "done"@ && r.data@.len() == 0
            } else {
                r.event@ == "token"@ && r.data == t.value
            },
            Err(e) => r.event@ == "error"@ && r.data@ == sse_error_category(e.message()),
        },
{
    match item {
        Ok(t) => {
            if t.is_final {
                NativeEvent { event: "done", data: String::new() }
            } else {
                NativeEvent { event: "token", data: t.value }
            }
        },
        Err(e) => {
            let msg = e.to_string();
            NativeEvent { event: "error", data: sanitize_sse_error(msg.as_str()) }
        },
    }
}

/// The single event sent for a malformed job id.
pub fn bad_job_id_event() -> (r: NativeEvent)
    ensures
        r.event@ == "error"@ && r.data@ == ERR_BAD_JOB_ID@,
{
    NativeEvent { event: "error", data: owned(ERR_BAD_JOB_ID) }
}

/// What a replay sends for one item: a chunk, or the fixed error body.
#[derive(Debug)]
pub enum ReplayEvent {
    Chunk(CompletionChunk),
    Error(Json),
}

/// One event of the OpenAI-format replay of a job: the final token gives a
/// `stop` chunk, another token a content chunk (no model name in either); a
/// failure gives `{"error": {"message": "inference failed"}}`, whatever it
/// was.
pub fn replay_event(chunk_id: &str, created: i64, item: Result<StreamToken, DomainError>) -> (r: ReplayEvent)
    ensures
        match item {
            Ok(t) => r matches ReplayEvent::Chunk(c) && c.id@ == chunk_id@ && c.created == created && c.model is None
                && c.choices@.len() == 1 && if t.is_final {
                c.choices@[0].finish_reason matches Some(f) && f@ == "stop"@
            } else {
                c.choices@[0].delta.content == Some(t.value) && c.choices@[0].finish_reason is None
            },
            Err(_) => r matches ReplayEvent::Error(j) && (j matches Json::Object(es) && es@.len() == 1 && es@[0].0@
                == "error"@ && (es@[0].1 matches Json::Object(m) && m@.len() == 1 && m@[0].0@ == "message"@ && is_str(
                m@[0].1,
                "inference failed"@,
            ))),
        },
{
    match item {
        Ok(t) => {
            if t.is_final {
                ReplayEvent::Chunk(CompletionChunk::stop(owned(chunk_id), created, None))
            } else {
                ReplayEvent::Chunk(CompletionChunk::content(owned(chunk_id), created, None, t.value))
            }
        },
        Err(_) => {
            let mut m: Vec<(String, Json)> = Vec::new();
            m.push((owned("message"), Json::String(owned("inference failed"))));
            let mut es: Vec<(String, Json)> = Vec::new();
            es.push((owned("error"), Json::Object(m)));
            ReplayEvent::Error(Json::Object(es))
        },
    }
}

/// Refusal of a stream beyond the concurrency cap.
pub const ERR_TOO_MANY_STREAMS: &'static str = "too many concurrent SSE connections";

/// Admission of a new stream given how many were open before it: at the
/// cap, it is refused (429) and the caller gives its slot back.
pub fn sse_admission(open_before: u32) -> (r: Result<(), &'static str>)
    ensures
        open_before >= SSE_MAX_CONNECTIONS ==> r == Err::<(), &'static str>(ERR_TOO_MANY_STREAMS),
        open_before < SSE_MAX_CONNECTIONS ==> r is Ok,
{
    if open_before >= SSE_MAX_CONNECTIONS {
        Err(ERR_TOO_MANY_STREAMS)
    } else {
        Ok(())
    }
}

} // verus!
