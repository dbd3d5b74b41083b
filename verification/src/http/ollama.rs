//! Ollama-native responses: single-shot `/api/generate` and `/api/chat`
//! bodies, and the NDJSON lines of their streams.

use vstd::prelude::*;
use vstd::string::*;

use crate::domain::errors::DomainError;
use crate::domain::value_objects::StreamToken;
use crate::http::inference::is_str;
use crate::http::validation::{sanitize_sse_error, sse_error_category};
use crate::json::Json;
use crate::text::{decimal, u64_to_decimal};

verus! {

/// `j` is the number `n`.
pub open spec fn is_num(j: Json, n: nat) -> bool {
    j matches Json::Number(t) && t@ == decimal(n)
}

/// `e` is key `key` with string value `s`.
pub open spec fn has_str(e: (String, Json), key: Seq<char>, s: Seq<char>) -> bool {
    e.0@ == key && is_str(e.1, s)
}

/// `e` is key `key` with numeric value `n`.
pub open spec fn has_num(e: (String, Json), key: Seq<char>, n: nat) -> bool {
    e.0@ == key && is_num(e.1, n)
}

/// `e` is key `key` with boolean value `b`.
pub open spec fn has_bool(e: (String, Json), key: Seq<char>, b: bool) -> bool {
    e.0@ == key && e.1 == Json::Bool(b)
}

fn num(n: u32) -> (r: Json)
    ensures
        is_num(r, n as nat),
{
    Json::Number(u64_to_decimal(n as u64))
}

fn entry(key: &str, value: Json) -> (r: (String, Json))
    ensures
        r.0@ == key@,
        r.1 == value,
{
    (key.to_owned(), value)
}

/// The trailing fields of a finished single-shot response, from index `i`:
/// `done: true`, zero durations, and the two token counts.
pub open spec fn finished_tail(es: Seq<(String, Json)>, i: int, prompt: nat, eval: nat) -> bool {
    &&& has_bool(es[i], "done"@, true)
    &&& has_num(es[i + 1], "total_duration"@, 0)
    &&& has_num(es[i + 2], "load_duration"@, 0)
    &&& has_num(es[i + 3], "prompt_eval_count"@, prompt)
    &&& has_num(es[i + 4], "prompt_eval_duration"@, 0)
    &&& has_num(es[i + 5], "eval_count"@, eval)
    &&& has_num(es[i + 6], "eval_duration"@, 0)
}

fn push_finished_tail(es: &mut Vec<(String, Json)>, prompt: u32, eval: u32)
    ensures
        final(es)@.len() == old(es)@.len() + 7,
        final(es)@.subrange(0, old(es)@.len() as int) == old(es)@,
        finished_tail(final(es)@, old(es)@.len() as int, prompt as nat, eval as nat),
{
    es.push(entry("done", Json::Bool(true)));
    es.push(entry("total_duration", num(0)));
    es.push(entry("load_duration", num(0)));
    es.push(entry("prompt_eval_count", num(prompt)));
    es.push(entry("prompt_eval_duration", num(0)));
    es.push(entry("eval_count", num(eval)));
    es.push(entry("eval_duration", num(0)));
    assert(es@.subrange(0, old(es)@.len() as int) =~= old(es)@);
}

/// Single-shot `/api/generate` response: model, timestamp, the collected
/// text as `response`, `done_reason: "stop"`, and the finished fields.
pub fn build_generate_response(model: &str, created_at: &str, content: String, prompt_tokens: u32, eval_tokens: u32) -> (r:
    Json)
    ensures
        r matches Json::Object(es) && es@.len() == 11 && has_str(es@[0], "model"@, model@) && has_str(
            es@[1],
            "created_at"@,
            created_at@,
        ) && has_str(es@[2], "response"@, content@) && has_str(es@[3], "done_reason"@, "stop"@)
            && finished_tail(es@, 4, prompt_tokens as nat, eval_tokens as nat),
{
    let ghost text = content@;
    let mut es: Vec<(String, Json)> = Vec::new();
    es.push(entry("model", Json::String(model.to_owned())));
    es.push(entry("created_at", Json::String(created_at.to_owned())));
    es.push(entry("response", Json::String(content)));
    es.push(entry("done_reason", Json::String("stop".to_owned())));
    let ghost head = es@;
    push_finished_tail(&mut es, prompt_tokens, eval_tokens);
    assert(es@[0] == head[0] && es@[1] == head[1] && es@[2] == head[2] && es@[3] == head[3]);
    Json::Object(es)
}

/// Single-shot `/api/chat` response. With tool calls the message is
/// `{"role": "assistant", "content": "", "tool_calls": ...}` and the reason
/// `tool_calls`; otherwise the message carries the text and the reason is
/// `stop`.
pub fn build_chat_response(
    model: &str,
    created_at: &str,
    content: String,
    tool_calls: Option<Json>,
    prompt_tokens: u32,
    eval_tokens: u32,
) -> (r: Json)
    ensures
        r matches Json::Object(es) && es@.len() == 11 && has_str(es@[0], "model"@, model@) && has_str(
            es@[1],
            "created_at"@,
            created_at@,
        ) && es@[2].0@ == "message"@ && (es@[2].1 matches Json::Object(ms) && has_str(
            ms@[0],
            "role"@,
            "assistant"@,
        ) && match tool_calls {
            Some(tc) => ms@.len() == 3 && has_str(ms@[1], "content"@, Seq::empty()) && ms@[2].0@
                == "tool_calls"@ && ms@[2].1 == tc,
            None => ms@.len() == 2 && has_str(ms@[1], "content"@, content@),
        }) && has_str(
            es@[3],
            "done_reason"@,
            if tool_calls is Some {
                "tool_calls"@
            } else {
                "stop"@
            },
        ) && finished_tail(es@, 4, prompt_tokens as nat, eval_tokens as nat),
{
    let ghost calls = tool_calls;
    let mut ms: Vec<(String, Json)> = Vec::new();
    ms.push(entry("role", Json::String("assistant".to_owned())));
    let reason = match tool_calls {
        Some(tc) => {
            ms.push(entry("content", Json::String(String::new())));
            ms.push(entry("tool_calls", tc));
            "tool_calls"
        },
        None => {
            ms.push(entry("content", Json::String(content)));
            "stop"
        },
    };
    let mut es: Vec<(String, Json)> = Vec::new();
    es.push(entry("model", Json::String(model.to_owned())));
    es.push(entry("created_at", Json::String(created_at.to_owned())));
    es.push(entry("message", Json::Object(ms)));
    es.push(entry("done_reason", Json::String(reason.to_owned())));
    let ghost head = es@;
    push_finished_tail(&mut es, prompt_tokens, eval_tokens);
    assert(es@[0] == head[0] && es@[1] == head[1] && es@[2] == head[2] && es@[3] == head[3]);
    Json::Object(es)
}

/// The error line of a failed stream: `{"error": <category>, "done": true}`.
pub open spec fn is_error_line(r: Json, e: DomainError) -> bool {
    r matches Json::Object(es) && es@.len() == 2 && has_str(es@[0], "error"@, sse_error_category(e.message()))
        && has_bool(es@[1], "done"@, true)
}

fn error_line(e: &DomainError) -> (r: Json)
    ensures
        is_error_line(r, *e),
{
    let msg = e.to_string();
    let mut es: Vec<(String, Json)> = Vec::new();
    es.push(entry("error", Json::String(sanitize_sse_error(msg.as_str()))));
    es.push(entry("done", Json::Bool(true)));
    Json::Object(es)
}

/// One NDJSON line of a `/api/generate` stream: the final token gives the
/// closing line with `done_reason: "stop"` and the counts; another token
/// gives `{"model", "created_at", "response", "done": false}`; an error
/// gives its category.
pub fn generate_stream_line(model: &str, created_at: &str, item: Result<StreamToken, DomainError>) -> (r: Json)
    ensures
        match item {
            Ok(t) => if t.is_final {
                r matches Json::Object(es) && es@.len() == 8 && has_str(es@[0], "model"@, model@) && has_str(
                    es@[1],
                    "created_at"@,
                    created_at@,
                ) && has_str(es@[2], "response"@, Seq::empty()) && has_bool(es@[3], "done"@, true) && has_str(
                    es@[4],
                    "done_reason"@,
                    "stop"@,
                ) && has_num(es@[5], "total_duration"@, 0) && has_num(
                    es@[6],
                    "prompt_eval_count"@,
                    match t.prompt_tokens {
                        Some(p) => p as nat,
                        None => 0,
                    },
                ) && has_num(
                    es@[7],
                    "eval_count"@,
                    match t.completion_tokens {
                        Some(c) => c as nat,
                        None => 0,
                    },
                )
            } else {
                r matches Json::Object(es) && es@.len() == 4 && has_str(es@[0], "model"@, model@) && has_str(
                    es@[1],
                    "created_at"@,
                    created_at@,
                ) && has_str(es@[2], "response"@, t.value@) && has_bool(es@[3], "done"@, false)
            },
            Err(e) => is_error_line(r, e),
        },
{
    match item {
        Ok(t) => {
            let mut es: Vec<(String, Json)> = Vec::new();
            es.push(entry("model", Json::String(model.to_owned())));
            es.push(entry("created_at", Json::String(created_at.to_owned())));
            if t.is_final {
                es.push(entry("response", Json::String(String::new())));
                es.push(entry("done", Json::Bool(true)));
                es.push(entry("done_reason", Json::String("stop".to_owned())));
                es.push(entry("total_duration", num(0)));
                let p = match t.prompt_tokens {
                    Some(p) => p,
                    None => 0,
                };
                let c = match t.completion_tokens {
                    Some(c) => c,
                    None => 0,
                };
                es.push(entry("prompt_eval_count", num(p)));
                es.push(entry("eval_count", num(c)));
            } else {
                es.push(entry("response", Json::String(t.value)));
                es.push(entry("done", Json::Bool(false)));
            }
            Json::Object(es)
        },
        Err(e) => error_line(&e),
    }
}

/// One NDJSON line of a `/api/chat` stream, or nothing for an empty text
/// token. Tool calls give an assistant message with empty content and the
/// calls (`done: false`); the final token gives the closing line; a text
/// token gives an assistant message with the text; an error gives its
/// category.
pub fn chat_stream_line(model: &str, created_at: &str, item: Result<StreamToken, DomainError>) -> (r: Option<Json>)
    ensures
        match item {
            Ok(t) => if t.tool_calls is Some {
                r matches Some(Json::Object(es)) && es@.len() == 4 && has_str(es@[0], "model"@, model@)
                    && has_str(es@[1], "created_at"@, created_at@) && es@[2].0@ == "message"@ && (
                es@[2].1 matches Json::Object(ms) && ms@.len() == 3 && has_str(ms@[0], "role"@, "assistant"@)
                    && has_str(ms@[1], "content"@, Seq::empty()) && ms@[2].0@ == "tool_calls"@ && ms@[2].1
                    == t.tool_calls->0) && has_bool(es@[3], "done"@, false)
            } else if t.is_final {
                r matches Some(Json::Object(es)) && es@.len() == 8 && has_str(es@[0], "model"@, model@)
                    && has_str(es@[1], "created_at"@, created_at@) && es@[2].0@ == "message"@ && (
                es@[2].1 matches Json::Object(ms) && ms@.len() == 2 && has_str(ms@[0], "role"@, "assistant"@)
                    && has_str(ms@[1], "content"@, Seq::empty())) && has_bool(es@[3], "done"@, true) && has_str(
                    es@[4],
                    "done_reason"@,
                    "stop"@,
                ) && has_num(es@[5], "total_duration"@, 0) && has_num(
                    es@[6],
                    "prompt_eval_count"@,
                    match t.prompt_tokens {
                        Some(p) => p as nat,
                        None => 0,
                    },
                ) && has_num(
                    es@[7],
                    "eval_count"@,
                    match t.completion_tokens {
                        Some(c) => c as nat,
                        None => 0,
                    },
                )
            } else if t.value@.len() == 0 {
                r is None
            } else {
                r matches Some(Json::Object(es)) && es@.len() == 4 && has_str(es@[0], "model"@, model@)
                    && has_str(es@[1], "created_at"@, created_at@) && es@[2].0@ == "message"@ && (
                es@[2].1 matches Json::Object(ms) && ms@.len() == 2 && has_str(ms@[0], "role"@, "assistant"@)
                    && has_str(ms@[1], "content"@, t.value@)) && has_bool(es@[3], "done"@, false)
            },
            Err(e) => r matches Some(x) && is_error_line(x, e),
        },
{
    match item {
        Ok(t) => {
            let StreamToken { value, is_final, prompt_tokens, completion_tokens, cached_tokens, tool_calls, finish_reason } =
                t;
            let mut es: Vec<(String, Json)> = Vec::new();
            es.push(entry("model", Json::String(model.to_owned())));
            es.push(entry("created_at", Json::String(created_at.to_owned())));
            let mut ms: Vec<(String, Json)> = Vec::new();
            ms.push(entry("role", Json::String("assistant".to_owned())));
            match tool_calls {
                Some(tc) => {
                    ms.push(entry("content", Json::String(String::new())));
                    ms.push(entry("tool_calls", tc));
                    es.push(entry("message", Json::Object(ms)));
                    es.push(entry("done", Json::Bool(false)));
                    return Some(Json::Object(es));
                },
                None => {},
            }
            if is_final {
                ms.push(entry("content", Json::String(String::new())));
                es.push(entry("message", Json::Object(ms)));
                es.push(entry("done", Json::Bool(true)));
                es.push(entry("done_reason", Json::String("stop".to_owned())));
                es.push(entry("total_duration", num(0)));
                let p = match prompt_tokens {
                    Some(p) => p,
                    None => 0,
                };
                let c = match completion_tokens {
                    Some(c) => c,
                    None => 0,
                };
                es.push(entry("prompt_eval_count", num(p)));
                es.push(entry("eval_count", num(c)));
                return Some(Json::Object(es));
            }
            if value.as_str().unicode_len() == 0 {
                return None;
            }
            ms.push(entry("content", Json::String(value)));
            es.push(entry("message", Json::Object(ms)));
            es.push(entry("done", Json::Bool(false)));
            Some(Json::Object(es))
        },
        Err(e) => Some(error_line(&e)),
    }
}

/// `r` is the `/api/tags` entry of model `name`, modified at `modified_at`.
pub open spec fn is_tag_entry(r: Json, name: Seq<char>, modified_at: Seq<char>) -> bool {
    r matches Json::Object(es) && es@.len() == 6 && {
        &&& has_str(es@[0], "name"@, name)
        &&& has_str(es@[1], "model"@, name)
        &&& has_str(es@[2], "modified_at"@, modified_at)
        &&& has_num(es@[3], "size"@, 0)
        &&& has_str(es@[4], "digest"@, Seq::empty())
        &&& es@[5].0@ == "details"@ && (es@[5].1 matches Json::Object(d) && d@.len() == 6 && {
            &&& has_str(d@[0], "parent_model"@, Seq::empty())
            &&& has_str(d@[1], "format"@, "gguf"@)
            &&& has_str(d@[2], "family"@, Seq::empty())
            &&& d@[3].0@ == "families"@ && (d@[3].1 matches Json::Array(f) && f@.len() == 0)
            &&& has_str(d@[4], "parameter_size"@, Seq::empty())
            &&& has_str(d@[5], "quantization_level"@, Seq::empty())
        })
    }
}

fn text_entry(key: &str, value: &str) -> (r: (String, Json))
    ensures
        has_str(r, key@, value@),
{
    entry(key, Json::String(value.to_owned()))
}

/// The `/api/tags` entry of a synced model: its name, the given
/// modification time, and placeholder details (GGUF, sizes unknown).
pub fn local_model_entry(name: &str, modified_at: &str) -> (r: Json)
    ensures
        is_tag_entry(r, name@, modified_at@),
{
    proof {
        reveal_strlit("");
    }
    assert(""@ =~= Seq::<char>::empty());
    let mut d: Vec<(String, Json)> = Vec::new();
    d.push(text_entry("parent_model", ""));
    d.push(text_entry("format", "gguf"));
    d.push(text_entry("family", ""));
    d.push(entry("families", Json::Array(Vec::new())));
    d.push(text_entry("parameter_size", ""));
    d.push(text_entry("quantization_level", ""));
    let mut es: Vec<(String, Json)> = Vec::new();
    es.push(text_entry("name", name));
    es.push(text_entry("model", name));
    es.push(text_entry("modified_at", modified_at));
    es.push(entry("size", num(0)));
    es.push(text_entry("digest", ""));
    es.push(entry("details", Json::Object(d)));
    Json::Object(es)
}

} // verus!
