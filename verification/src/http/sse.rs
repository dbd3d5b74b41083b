//! OpenAI chat-completion responses: streaming chunks, and the collection
//! of a job's token stream into one non-streaming completion.

use vstd::prelude::*;
use vstd::string::*;

use crate::domain::enums::FinishReason;
use crate::domain::errors::DomainError;
use crate::domain::value_objects::StreamToken;
use crate::http::validation::{sanitize_sse_error, sse_error_category};
use crate::http::dto::{CompletionTokensDetails, PromptTokensDetails, UsageInfo};
use crate::http::inference::{convert_tool_call, is_openai_tool_call, tool_call_ok, call_arguments, call_name, validate_tool_call};
use crate::json::Json;

verus! {

/// System fingerprint reported on all OpenAI-compatible responses.
pub const SYSTEM_FINGERPRINT: &'static str = "fp_veronex";

/// Service tier reported on all OpenAI-compatible responses.
pub const SERVICE_TIER_DEFAULT: &'static str = "default";

/// Object name of a streaming chunk.
pub const CHUNK_OBJECT: &'static str = "chat.completion.chunk";

/// Object name of a non-streaming completion.
pub const COMPLETION_OBJECT: &'static str = "chat.completion";

/// The delta of a streaming choice; only the present fields are sent.
#[derive(Debug)]
pub struct DeltaContent {
    pub role: Option<&'static str>,
    pub content: Option<String>,
    pub tool_calls: Option<Vec<Json>>,
}

/// One choice of a streaming chunk.
#[derive(Debug)]
pub struct ChunkChoice {
    pub index: u32,
    pub delta: DeltaContent,
    pub finish_reason: Option<String>,
}

/// One SSE frame of a streaming chat completion.
#[derive(Debug)]
pub struct CompletionChunk {
    pub id: String,
    pub object: &'static str,
    pub created: i64,
    pub model: Option<String>,
    pub service_tier: Option<&'static str>,
    pub choices: Vec<ChunkChoice>,
    pub system_fingerprint: Option<&'static str>,
    pub usage: Option<UsageInfo>,
}

/// The fields every chunk shares: id, object, timestamp, model, tier and
/// fingerprint.
pub open spec fn chunk_header(c: CompletionChunk, id: String, created: i64, model: Option<String>) -> bool {
    &&& c.id == id
    &&& c.object@ == CHUNK_OBJECT@
    &&& c.created == created
    &&& c.model == model
    &&& c.service_tier matches Some(t) && t@ == SERVICE_TIER_DEFAULT@
    &&& c.system_fingerprint matches Some(f) && f@ == SYSTEM_FINGERPRINT@
}

/// An empty delta.
pub open spec fn empty_delta(d: DeltaContent) -> bool {
    d.role is None && d.content is None && d.tool_calls is None
}

fn one_choice(delta: DeltaContent, finish_reason: Option<String>) -> (r: Vec<ChunkChoice>)
    ensures
        r@.len() == 1,
        r@[0].index == 0,
        r@[0].delta == delta,
        r@[0].finish_reason == finish_reason,
{
    let mut v: Vec<ChunkChoice> = Vec::new();
    v.push(ChunkChoice { index: 0, delta, finish_reason });
    v
}

impl CompletionChunk {
    /// A text delta chunk.
    pub fn content(id: String, created: i64, model: Option<String>, text: String) -> (r: CompletionChunk)
        ensures
            chunk_header(r, id, created, model),
            r.choices@.len() == 1,
            r.choices@[0].index == 0,
            r.choices@[0].delta.content == Some(text),
            r.choices@[0].delta.role is None && r.choices@[0].delta.tool_calls is None,
            r.choices@[0].finish_reason is None,
            r.usage is None,
    {
        CompletionChunk {
            id,
            object: CHUNK_OBJECT,
            created,
            model,
            service_tier: Some(SERVICE_TIER_DEFAULT),
            choices: one_choice(DeltaContent { role: None, content: Some(text), tool_calls: None }, None),
            system_fingerprint: Some(SYSTEM_FINGERPRINT),
            usage: None,
        }
    }

    /// A finish chunk with the given reason and an empty delta.
    pub fn finish(id: String, created: i64, model: Option<String>, reason: &str) -> (r: CompletionChunk)
        ensures
            chunk_header(r, id, created, model),
            r.choices@.len() == 1,
            r.choices@[0].index == 0,
            empty_delta(r.choices@[0].delta),
            r.choices@[0].finish_reason matches Some(f) && f@ == reason@,
            r.usage is None,
    {
        CompletionChunk {
            id,
            object: CHUNK_OBJECT,
            created,
            model,
            service_tier: Some(SERVICE_TIER_DEFAULT),
            choices: one_choice(
                DeltaContent { role: None, content: None, tool_calls: None },
                Some(reason.to_owned()),
            ),
            system_fingerprint: Some(SYSTEM_FINGERPRINT),
            usage: None,
        }
    }

    /// A finish chunk carrying usage (for `stream_options.include_usage`).
    pub fn finish_with_usage(id: String, created: i64, model: Option<String>, reason: &str, usage: UsageInfo) -> (r:
        CompletionChunk)
        ensures
            chunk_header(r, id, created, model),
            r.choices@.len() == 1,
            r.choices@[0].index == 0,
            empty_delta(r.choices@[0].delta),
            r.choices@[0].finish_reason matches Some(f) && f@ == reason@,
            r.usage == Some(usage),
    {
        CompletionChunk {
            id,
            object: CHUNK_OBJECT,
            created,
            model,
            service_tier: Some(SERVICE_TIER_DEFAULT),
            choices: one_choice(
                DeltaContent { role: None, content: None, tool_calls: None },
                Some(reason.to_owned()),
            ),
            system_fingerprint: Some(SYSTEM_FINGERPRINT),
            usage: Some(usage),
        }
    }

    /// The final usage-only chunk: no choices at all, as the OpenAI format
    /// requires.
    pub fn usage_only(id: String, created: i64, model: Option<String>, usage: UsageInfo) -> (r: CompletionChunk)
        ensures
            chunk_header(r, id, created, model),
            r.choices@.len() == 0,
            r.usage == Some(usage),
    {
        CompletionChunk {
            id,
            object: CHUNK_OBJECT,
            created,
            model,
            service_tier: Some(SERVICE_TIER_DEFAULT),
            choices: Vec::new(),
            system_fingerprint: Some(SYSTEM_FINGERPRINT),
            usage: Some(usage),
        }
    }

    /// A finish chunk with reason `stop`.
    pub fn stop(id: String, created: i64, model: Option<String>) -> (r: CompletionChunk)
        ensures
            chunk_header(r, id, created, model),
            r.choices@.len() == 1,
            empty_delta(r.choices@[0].delta),
            r.choices@[0].finish_reason matches Some(f) && f@ == "stop"@,
            r.usage is None,
    {
        Self::finish(id, created, model, FinishReason::Stop.as_str())
    }

    /// A chunk whose delta carries tool calls.
    pub fn tool_calls(id: String, created: i64, model: Option<String>, calls: Vec<Json>) -> (r: CompletionChunk)
        ensures
            chunk_header(r, id, created, model),
            r.choices@.len() == 1,
            r.choices@[0].index == 0,
            r.choices@[0].delta.tool_calls == Some(calls),
            r.choices@[0].delta.role is None && r.choices@[0].delta.content is None,
            r.choices@[0].finish_reason is None,
            r.usage is None,
    {
        CompletionChunk {
            id,
            object: CHUNK_OBJECT,
            created,
            model,
            service_tier: Some(SERVICE_TIER_DEFAULT),
            choices: one_choice(DeltaContent { role: None, content: None, tool_calls: Some(calls) }, None),
            system_fingerprint: Some(SYSTEM_FINGERPRINT),
            usage: None,
        }
    }
}

/// `us` is the usage for these counts: the total is their sum, saturating
/// at `u32::MAX`, and all details are zero.
pub open spec fn is_default_usage(us: UsageInfo, prompt_tokens: u32, completion_tokens: u32) -> bool {
    &&& us.prompt_tokens == prompt_tokens
    &&& us.completion_tokens == completion_tokens
    &&& us.total_tokens == if prompt_tokens + completion_tokens <= u32::MAX {
        (prompt_tokens + completion_tokens) as u32
    } else {
        u32::MAX
    }
    &&& us.prompt_tokens_details == (PromptTokensDetails { cached_tokens: 0, audio_tokens: 0 })
    &&& us.completion_tokens_details == (CompletionTokensDetails {
        reasoning_tokens: 0,
        accepted_prediction_tokens: 0,
        rejected_prediction_tokens: 0,
        audio_tokens: 0,
    })
}

/// Usage with default details; the total saturates at `u32::MAX`.
pub fn usage_info(prompt_tokens: u32, completion_tokens: u32) -> (r: UsageInfo)
    ensures
        is_default_usage(r, prompt_tokens, completion_tokens),
{
    UsageInfo {
        prompt_tokens,
        completion_tokens,
        total_tokens: prompt_tokens.saturating_add(completion_tokens),
        prompt_tokens_details: PromptTokensDetails { cached_tokens: 0, audio_tokens: 0 },
        completion_tokens_details: CompletionTokensDetails {
            reasoning_tokens: 0,
            accepted_prediction_tokens: 0,
            rejected_prediction_tokens: 0,
            audio_tokens: 0,
        },
    }
}

// ── Non-streaming completion ─────────────────────────────────────────────────

/// The assistant message of a non-streaming completion.
#[derive(Debug)]
pub struct CompletionMessage {
    pub role: &'static str,
    pub content: Option<String>,
    pub tool_calls: Option<Vec<Json>>,
    /// Always absent (`null`).
    pub refusal: Option<Json>,
}

/// The single choice of a non-streaming completion.
#[derive(Debug)]
pub struct CompletionChoice {
    pub index: u32,
    pub message: CompletionMessage,
    pub finish_reason: String,
}

/// A non-streaming chat completion.
#[derive(Debug)]
pub struct ChatCompletion {
    pub id: String,
    pub object: &'static str,
    pub created: i64,
    pub model: String,
    pub service_tier: &'static str,
    pub choices: Vec<CompletionChoice>,
    pub usage: UsageInfo,
    pub system_fingerprint: &'static str,
    /// Public id of the conversation, when there is one.
    pub conversation_id: Option<String>,
    /// Sent only when true.
    pub conversation_renewed: bool,
}

/// What has been read so far of a job's token stream.
#[derive(Debug)]
pub struct CompletionCollector {
    /// Concatenated non-empty text tokens.
    pub content: String,
    /// Accepted tool calls, converted to OpenAI form.
    pub tool_calls: Vec<Json>,
    pub prompt_tokens: u32,
    pub completion_tokens: u32,
    pub finish_reason: String,
    /// The final token was read; later tokens are ignored.
    pub finished: bool,
}

/// The accepted tool calls of an array of provider calls, in order, each
/// with its position in the array.
pub open spec fn accepted_calls(calls: Seq<Json>) -> Seq<(nat, Json)>
    decreases calls.len(),
{
    if calls.len() == 0 {
        Seq::empty()
    } else {
        let rest = accepted_calls(calls.drop_last());
        if tool_call_ok(calls.last()) {
            rest.push(((calls.len() - 1) as nat, calls.last()))
        } else {
            rest
        }
    }
}

/// `out` holds the OpenAI forms of the accepted calls, in order.
pub open spec fn converts_accepted(out: Seq<Json>, accepted: Seq<(nat, Json)>) -> bool {
    out.len() == accepted.len() && forall|k: int|
        0 <= k < out.len() ==> is_openai_tool_call(
            #[trigger] out[k],
            accepted[k].0,
            call_name(accepted[k].1),
            call_arguments(accepted[k].1),
        )
}

/// Screens and converts the tool calls of one token: a call that fails
/// screening is dropped; the others keep their position in the array.
pub fn accepted_tool_calls(calls: &Json) -> (r: Vec<Json>)
    ensures
        match calls {
            Json::Array(items) => converts_accepted(r@, accepted_calls(items@)),
            _ => r@.len() == 0,
        },
{
    let mut out: Vec<Json> = Vec::new();
    match calls {
        Json::Array(items) => {
            let n = items.len();
            let mut i: usize = 0;
            while i < n
                invariant
                    n == items@.len(),
                    i <= n,
                    converts_accepted(out@, accepted_calls(items@.subrange(0, i as int))),
                decreases n - i,
            {
                let ghost pre = accepted_calls(items@.subrange(0, i as int));
                assert(items@.subrange(0, i + 1).drop_last() =~= items@.subrange(0, i as int));
                assert(items@.subrange(0, i + 1).last() == items@[i as int]);
                if validate_tool_call(&items[i]) {
                    out.push(convert_tool_call(i, &items[i]));
                    assert(converts_accepted(out@, pre.push((i as nat, items@[i as int])))) by {
                        assert forall|k: int| 0 <= k < out@.len() implies is_openai_tool_call(
                            #[trigger] out@[k],
                            pre.push((i as nat, items@[i as int]))[k].0,
                            call_name(pre.push((i as nat, items@[i as int]))[k].1),
                            call_arguments(pre.push((i as nat, items@[i as int]))[k].1),
                        ) by {
                            if k < pre.len() {
                                assert(pre.push((i as nat, items@[i as int]))[k] == pre[k]);
                            }
                        }
                    }
                }
                i += 1;
            }
            assert(items@.subrange(0, n as int) =~= items@);
        },
        _ => {},
    }
    out
}

impl CompletionCollector {
    /// Nothing read yet: no content, no calls, no counts, reason `stop`.
    pub fn new() -> (r: CompletionCollector)
        ensures
            r.content@ == Seq::<char>::empty(),
            r.tool_calls@.len() == 0,
            r.prompt_tokens == 0 && r.completion_tokens == 0,
            r.finish_reason@ == "stop"@,
            !r.finished,
    {
        CompletionCollector {
            content: String::new(),
            tool_calls: Vec::new(),
            prompt_tokens: 0,
            completion_tokens: 0,
            finish_reason: FinishReason::Stop.as_str().to_owned(),
            finished: false,
        }
    }

    /// Reads one token of the stream. A token with tool calls adds the
    /// accepted ones; the final token sets the counts (prompt count default
    /// 0, completion count defaulting to what was there) and the finish
    /// reason (`tool_calls` when calls were collected and none is given,
    /// else `stop`), and ends collection; any other token appends its text.
    pub fn absorb(&mut self, token: StreamToken)
        ensures
            old(self).finished ==> *final(self) == *old(self),
            !old(self).finished && token.tool_calls is Some ==> {
                &&& final(self).content == old(self).content
                &&& final(self).prompt_tokens == old(self).prompt_tokens
                &&& final(self).completion_tokens == old(self).completion_tokens
                &&& final(self).finish_reason == old(self).finish_reason
                &&& !final(self).finished
                &&& final(self).tool_calls@.subrange(0, old(self).tool_calls@.len() as int) == old(
                    self,
                ).tool_calls@
                &&& match token.tool_calls {
                    Some(Json::Array(items)) => converts_accepted(
                        final(self).tool_calls@.subrange(
                            old(self).tool_calls@.len() as int,
                            final(self).tool_calls@.len() as int,
                        ),
                        accepted_calls(items@),
                    ),
                    _ => final(self).tool_calls@.len() == old(self).tool_calls@.len(),
                }
            },
            !old(self).finished && token.tool_calls is None && token.is_final ==> {
                &&& final(self).finished
                &&& final(self).content == old(self).content
                &&& final(self).tool_calls == old(self).tool_calls
                &&& final(self).prompt_tokens == match token.prompt_tokens {
                    Some(p) => p,
                    None => 0,
                }
                &&& final(self).completion_tokens == match token.completion_tokens {
                    Some(c) => c,
                    None => old(self).completion_tokens,
                }
                &&& final(self).finish_reason@ == match token.finish_reason {
                    Some(f) => f@,
                    None => if old(self).tool_calls@.len() == 0 {
                        "stop"@
                    } else {
                        "tool_calls"@
                    },
                }
            },
            !old(self).finished && token.tool_calls is None && !token.is_final ==> {
                &&& !final(self).finished
                &&& final(self).content@ == old(self).content@ + token.value@
                &&& final(self).tool_calls == old(self).tool_calls
                &&& final(self).prompt_tokens == old(self).prompt_tokens
                &&& final(self).completion_tokens == old(self).completion_tokens
                &&& final(self).finish_reason == old(self).finish_reason
            },
    {
        if self.finished {
            return;
        }
        match &token.tool_calls {
            Some(calls) => {
                let ghost before = self.tool_calls@;
                let mut accepted = accepted_tool_calls(calls);
                let ghost added = accepted@;
                self.tool_calls.append(&mut accepted);
                assert(self.tool_calls@.subrange(0, before.len() as int) =~= before);
                assert(self.tool_calls@.subrange(before.len() as int, self.tool_calls@.len() as int) =~= added);
                return;
            },
            None => {},
        }
        if token.is_final {
            self.prompt_tokens = match token.prompt_tokens {
                Some(p) => p,
                None => 0,
            };
            self.completion_tokens = match token.completion_tokens {
                Some(c) => c,
                None => self.completion_tokens,
            };
            self.finish_reason = match token.finish_reason {
                Some(f) => f,
                None => {
                    if self.tool_calls.len() == 0 {
                        FinishReason::Stop.as_str().to_owned()
                    } else {
                        "tool_calls".to_owned()
                    }
                },
            };
            self.finished = true;
        } else {
            self.content.append(token.value.as_str());
        }
    }

    /// The completion for what was collected: one assistant choice with the
    /// content (absent when empty) and the tool calls (absent when none).
    pub fn into_completion(self, id: String, created: i64, model: String, conversation_id: Option<String>) -> (r:
        ChatCompletion)
        ensures
            r.id == id && r.created == created && r.model == model,
            r.object@ == COMPLETION_OBJECT@,
            r.service_tier@ == SERVICE_TIER_DEFAULT@,
            r.system_fingerprint@ == SYSTEM_FINGERPRINT@,
            r.conversation_id == conversation_id,
            !r.conversation_renewed,
            r.choices@.len() == 1,
            r.choices@[0].index == 0,
            r.choices@[0].message.role@ == "assistant"@,
            r.choices@[0].message.content == if self.content@.len() == 0 {
                None
            } else {
                Some(self.content)
            },
            r.choices@[0].message.tool_calls == if self.tool_calls@.len() == 0 {
                None
            } else {
                Some(self.tool_calls)
            },
            r.choices@[0].message.refusal is None,
            r.choices@[0].finish_reason == self.finish_reason,
            r.usage.prompt_tokens == self.prompt_tokens,
            r.usage.completion_tokens == self.completion_tokens,
    {
        let CompletionCollector { content, tool_calls, prompt_tokens, completion_tokens, finish_reason, finished } =
            self;
        let content = if content.as_str().unicode_len() == 0 {
            None
        } else {
            Some(content)
        };
        let tool_calls = if tool_calls.len() == 0 {
            None
        } else {
            Some(tool_calls)
        };
        let mut choices: Vec<CompletionChoice> = Vec::new();
        choices.push(
            CompletionChoice {
                index: 0,
                message: CompletionMessage { role: "assistant", content, tool_calls, refusal: None },
                finish_reason,
            },
        );
        ChatCompletion {
            id,
            object: COMPLETION_OBJECT,
            created,
            model,
            service_tier: SERVICE_TIER_DEFAULT,
            choices,
            usage: usage_info(prompt_tokens, completion_tokens),
            system_fingerprint: SYSTEM_FINGERPRINT,
            conversation_id,
            conversation_renewed: false,
        }
    }
}

// ── Streaming: token to SSE events ───────────────────────────────────────────

/// One SSE event of a streamed chat completion.
#[derive(Debug)]
pub enum StreamEvent {
    Chunk(CompletionChunk),
    /// `{"error": {"message": ...}}` with a client-safe category.
    Error(String),
}

/// State of a streamed chat completion: the chunk id, timestamp and model
/// repeated in every chunk, whether usage is to be sent, and whether tool
/// calls were seen.
#[derive(Debug, Clone, PartialEq, Eq)]
pub struct OpenAiStream {
    pub chunk_id: String,
    pub created: i64,
    pub model: String,
    pub include_usage: bool,
    pub saw_tool_calls: bool,
}

/// `c` carries the stream's id, time and model.
pub open spec fn from_stream(c: CompletionChunk, st: OpenAiStream) -> bool {
    &&& c.id@ == st.chunk_id@
    &&& c.created == st.created
    &&& (c.model matches Some(m) && m@ == st.model@)
}

/// The finish reason sent: the token's own, else `tool_calls` after tool
/// calls, else `stop`.
pub open spec fn final_reason(given: Option<String>, saw_tool_calls: bool) -> Seq<char> {
    match given {
        Some(x) => x@,
        None => if saw_tool_calls {
            "tool_calls"@
        } else {
            "stop"@
        },
    }
}

/// `c` is the stream's finish chunk with reason `reason`.
pub open spec fn is_finish_chunk(c: CompletionChunk, st: OpenAiStream, reason: Seq<char>) -> bool {
    &&& from_stream(c, st)
    &&& c.usage is None
    &&& c.choices@.len() == 1
    &&& empty_delta(c.choices@[0].delta)
    &&& (c.choices@[0].finish_reason matches Some(f) && f@ == reason)
}

/// `u` is the stream's usage-only chunk with these counts.
pub open spec fn is_usage_chunk(u: CompletionChunk, st: OpenAiStream, pt: u32, ct: u32) -> bool {
    &&& from_stream(u, st)
    &&& u.choices@.len() == 0
    &&& (u.usage matches Some(us) && is_default_usage(us, pt, ct))
}

/// `c` is the stream's tool-calls chunk for the calls of `calls`.
pub open spec fn is_tool_calls_chunk(c: CompletionChunk, st: OpenAiStream, calls: Option<Json>) -> bool {
    &&& from_stream(c, st)
    &&& c.choices@.len() == 1
    &&& c.choices@[0].finish_reason is None
    &&& c.usage is None
    &&& (c.choices@[0].delta.tool_calls matches Some(out) && match calls {
        Some(Json::Array(items)) => converts_accepted(out@, accepted_calls(items@)),
        _ => out@.len() == 0,
    })
}

impl OpenAiStream {
    /// Maps one item of the job's token stream to SSE events. Tool calls
    /// become a tool-calls chunk (only calls that pass screening, converted);
    /// the final token becomes a finish chunk (its reason, else `tool_calls`
    /// after tool calls, else `stop`) and, when asked, a usage-only chunk; a
    /// non-empty text token becomes a content chunk, an empty one nothing;
    /// an error becomes its client-safe category.
    pub fn on_item(&mut self, item: Result<StreamToken, DomainError>) -> (r: Vec<StreamEvent>)
        ensures
            final(self).chunk_id == old(self).chunk_id,
            final(self).created == old(self).created,
            final(self).model == old(self).model,
            final(self).include_usage == old(self).include_usage,
            match item {
                Err(e) => final(self).saw_tool_calls == old(self).saw_tool_calls && r@.len() == 1 && (
                r@[0] matches StreamEvent::Error(m) && m@ == sse_error_category(e.message())),
                Ok(t) => if t.tool_calls is Some {
                    &&& final(self).saw_tool_calls
                    &&& r@.len() == 1
                    &&& (r@[0] matches StreamEvent::Chunk(c) && is_tool_calls_chunk(c, *old(self), t.tool_calls))
                } else if t.is_final {
                    &&& final(self).saw_tool_calls == old(self).saw_tool_calls
                    &&& r@.len() == if old(self).include_usage { 2int } else { 1int }
                    &&& (r@[0] matches StreamEvent::Chunk(c) && is_finish_chunk(
                        c,
                        *old(self),
                        final_reason(t.finish_reason, old(self).saw_tool_calls),
                    ))
                    &&& old(self).include_usage ==> (r@[1] matches StreamEvent::Chunk(u) && is_usage_chunk(
                        u,
                        *old(self),
                        match t.prompt_tokens {
                            Some(p) => p,
                            None => 0,
                        },
                        match t.completion_tokens {
                            Some(c) => c,
                            None => 0,
                        },
                    ))
                } else if t.value@.len() == 0 {
                    final(self).saw_tool_calls == old(self).saw_tool_calls && r@.len() == 0
                } else {
                    &&& final(self).saw_tool_calls == old(self).saw_tool_calls
                    &&& r@.len() == 1
                    &&& (r@[0] matches StreamEvent::Chunk(c) && from_stream(c, *old(self)) && c.choices@.len() == 1
                        && c.choices@[0].delta.content == Some(t.value) && c.choices@[0].finish_reason is None)
                },
            },
    {
        let mut out: Vec<StreamEvent> = Vec::new();
        match item {
            Err(e) => {
                let m = e.to_string();
                out.push(StreamEvent::Error(sanitize_sse_error(m.as_str())));
                out
            },
            Ok(t) => {
                let StreamToken { value, is_final, prompt_tokens, completion_tokens, cached_tokens, tool_calls, finish_reason } =
                    t;
                match tool_calls {
                    Some(calls) => {
                        self.saw_tool_calls = true;
                        let accepted = accepted_tool_calls(&calls);
                        out.push(
                            StreamEvent::Chunk(
                                CompletionChunk::tool_calls(
                                    self.chunk_id.clone(),
                                    self.created,
                                    Some(self.model.clone()),
                                    accepted,
                                ),
                            ),
                        );
                        return out;
                    },
                    None => {},
                }
                if is_final {
                    let reason = match finish_reason {
                        Some(x) => x,
                        None => if self.saw_tool_calls {
                            "tool_calls".to_owned()
                        } else {
                            FinishReason::Stop.as_str().to_owned()
                        },
                    };
                    out.push(
                        StreamEvent::Chunk(
                            CompletionChunk::finish(
                                self.chunk_id.clone(),
                                self.created,
                                Some(self.model.clone()),
                                reason.as_str(),
                            ),
                        ),
                    );
                    if self.include_usage {
                        let pt = match prompt_tokens {
                            Some(p) => p,
                            None => 0,
                        };
                        let ct = match completion_tokens {
                            Some(c) => c,
                            None => 0,
                        };
                        out.push(
                            StreamEvent::Chunk(
                                CompletionChunk::usage_only(
                                    self.chunk_id.clone(),
                                    self.created,
                                    Some(self.model.clone()),
                                    usage_info(pt, ct),
                                ),
                            ),
                        );
                    }
                    return out;
                }
                if value.as_str().unicode_len() == 0 {
                    return out;
                }
                out.push(
                    StreamEvent::Chunk(
                        CompletionChunk::content(self.chunk_id.clone(), self.created, Some(self.model.clone()), value),
                    ),
                );
                out
            },
        }
    }
}

// ── Ollama-native collection ─────────────────────────────────────────────────

/// What a non-streaming Ollama-native request collects from the token
/// stream: the text, the last tool calls seen, and the final counts.
#[derive(Debug)]
pub struct OllamaCollected {
    pub content: String,
    pub tool_calls: Option<Json>,
    pub prompt_tokens: u32,
    pub eval_tokens: u32,
}

impl OllamaCollected {
    /// Nothing collected yet.
    pub fn new() -> (r: OllamaCollected)
        ensures
            r.content@.len() == 0,
            r.tool_calls is None,
            r.prompt_tokens == 0 && r.eval_tokens == 0,
    {
        OllamaCollected { content: String::new(), tool_calls: None, prompt_tokens: 0, eval_tokens: 0 }
    }

    /// Reads one token: tool calls replace the ones kept; the final token
    /// sets both counts (missing counts are 0); other tokens append their
    /// text.
    pub fn absorb(&mut self, token: StreamToken)
        ensures
            token.tool_calls is Some ==> final(self).tool_calls == token.tool_calls && final(self).content
                == old(self).content && final(self).prompt_tokens == old(self).prompt_tokens
                && final(self).eval_tokens == old(self).eval_tokens,
            token.tool_calls is None && token.is_final ==> final(self).tool_calls == old(self).tool_calls
                && final(self).content == old(self).content && final(self).prompt_tokens == match token.prompt_tokens {
                Some(p) => p,
                None => 0,
            } && final(self).eval_tokens == match token.completion_tokens {
                Some(c) => c,
                None => 0,
            },
            token.tool_calls is None && !token.is_final ==> final(self).tool_calls == old(self).tool_calls
                && final(self).content@ == old(self).content@ + token.value@ && final(self).prompt_tokens
                == old(self).prompt_tokens && final(self).eval_tokens == old(self).eval_tokens,
    {
        let StreamToken { value, is_final, prompt_tokens, completion_tokens, cached_tokens, tool_calls, finish_reason } =
            token;
        match tool_calls {
            Some(tc) => {
                self.tool_calls = Some(tc);
            },
            None => {
                if is_final {
                    self.prompt_tokens = match prompt_tokens {
                        Some(p) => p,
                        None => 0,
                    };
                    self.eval_tokens = match completion_tokens {
                        Some(c) => c,
                        None => 0,
                    };
                } else {
                    self.content.append(value.as_str());
                }
            },
        }
    }
}

} // verus!
