//! Admission checks and routing of the inference endpoints (OpenAI chat and
//! text completions, Ollama generate and chat): what a request must satisfy
//! before a job is submitted, and where it goes.

use vstd::prelude::*;
use vstd::string::*;

use crate::codec::is_uuid_v7;
use crate::domain::constants::{MAX_CHAT_MESSAGES, MAX_TOKENS_CEILING};
use crate::domain::enums::ProviderType;
use crate::domain::ids::{pub_id_parse, pub_id_text, ConvId};
use crate::http::constants::{ERR_MODEL_INVALID, ERR_PROMPT_TOO_LARGE, MAX_MODEL_NAME_BYTES, MAX_PROMPT_BYTES};
use crate::http::inference::{byte_len, extract_last_user_prompt, is_str, is_user_message, last_user_prompt};
use crate::json::{as_str, as_str_of, field, get_field, set_field, str_of, Json};
use crate::http::openai::{content_text, ChatMessage, ContentPart, MessageContent};
use crate::http::validation::{parse_provider_str, validate_content_length, validate_model_name};
use crate::text::{concat3, str_eq, texts};

verus! {

// ── Rejections ───────────────────────────────────────────────────────────────

/// Why an inference request is refused before submission (all are 400).
#[derive(Debug, Clone, Copy, PartialEq, Eq)]
pub enum GateError {
    InvalidModel,
    TooManyMessages,
    PromptTooLarge,
    /// Ollama `/api/generate` with an empty prompt.
    PromptRequired,
    /// `/v1/completions` with an empty prompt.
    EmptyPrompt,
    NoUserMessage,
}

/// The message sent for a rejection.
pub open spec fn gate_text(e: GateError) -> Seq<char> {
    match e {
        GateError::InvalidModel => ERR_MODEL_INVALID@,
        GateError::TooManyMessages => "messages array exceeds maximum length of 256"@,
        GateError::PromptTooLarge => ERR_PROMPT_TOO_LARGE@,
        GateError::PromptRequired => "prompt is required"@,
        GateError::EmptyPrompt => "prompt cannot be empty"@,
        GateError::NoUserMessage => "no user message found in messages array"@,
    }
}

impl GateError {
    /// Renders the message sent for the rejection.
    pub fn message(&self) -> (r: String)
        ensures
            r@ == gate_text(*self),
    {
        match self {
            GateError::InvalidModel => ERR_MODEL_INVALID.to_owned(),
            GateError::TooManyMessages => "messages array exceeds maximum length of 256".to_owned(),
            GateError::PromptTooLarge => ERR_PROMPT_TOO_LARGE.to_owned(),
            GateError::PromptRequired => "prompt is required".to_owned(),
            GateError::EmptyPrompt => "prompt cannot be empty".to_owned(),
            GateError::NoUserMessage => "no user message found in messages array".to_owned(),
        }
    }
}

/// A model name is valid: non-empty and at most 256 bytes.
pub open spec fn model_ok(model: &str) -> bool {
    model@.len() > 0 && model.len() <= MAX_MODEL_NAME_BYTES
}

// ── OpenAI chat completions ──────────────────────────────────────────────────

/// Total bytes of the texts of content parts.
pub open spec fn parts_bytes(parts: Seq<ContentPart>) -> int
    decreases parts.len(),
{
    if parts.len() == 0 {
        0
    } else {
        parts_bytes(parts.drop_last()) + match parts.last().text {
            Some(t) => byte_len(t@) as int,
            None => 0,
        }
    }
}

/// Bytes of one message's content: the string, or the texts of its parts.
pub open spec fn message_bytes(m: ChatMessage) -> int {
    match m.content {
        None => 0,
        Some(MessageContent::Text(s)) => byte_len(s@) as int,
        Some(MessageContent::Parts(parts)) => parts_bytes(parts@),
    }
}

/// Total content bytes of a message list.
pub open spec fn chat_bytes(ms: Seq<ChatMessage>) -> int
    decreases ms.len(),
{
    if ms.len() == 0 {
        0
    } else {
        chat_bytes(ms.drop_last()) + message_bytes(ms.last())
    }
}

proof fn lemma_parts_bytes_nonneg(parts: Seq<ContentPart>)
    ensures
        parts_bytes(parts) >= 0,
    decreases parts.len(),
{
    if parts.len() > 0 {
        lemma_parts_bytes_nonneg(parts.drop_last());
    }
}

proof fn lemma_chat_bytes_nonneg(ms: Seq<ChatMessage>)
    ensures
        chat_bytes(ms) >= 0,
    decreases ms.len(),
{
    if ms.len() > 0 {
        lemma_chat_bytes_nonneg(ms.drop_last());
        match ms.last().content {
            Some(MessageContent::Parts(parts)) => lemma_parts_bytes_nonneg(parts@),
            _ => {},
        }
    }
}

fn message_content_bytes(m: &ChatMessage) -> (r: usize)
    ensures
        r as int == if message_bytes(*m) <= usize::MAX { message_bytes(*m) } else { usize::MAX as int },
{
    match &m.content {
        None => 0,
        Some(MessageContent::Text(s)) => s.as_str().len(),
        Some(MessageContent::Parts(parts)) => {
            let n = parts.len();
            let mut total: usize = 0;
            let mut i: usize = 0;
            while i < n
                invariant
                    n == parts@.len(),
                    i <= n,
                    total as int == if parts_bytes(parts@.subrange(0, i as int)) <= usize::MAX {
                        parts_bytes(parts@.subrange(0, i as int))
                    } else {
                        usize::MAX as int
                    },
                decreases n - i,
            {
                assert(parts@.subrange(0, i + 1).drop_last() =~= parts@.subrange(0, i as int));
                proof {
                    lemma_parts_bytes_nonneg(parts@.subrange(0, i as int));
                }
                let add: usize = match &parts[i].text {
                    Some(t) => t.as_str().len(),
                    None => 0,
                };
                total = total.saturating_add(add);
                i += 1;
            }
            assert(parts@.subrange(0, n as int) =~= parts@);
            total
        },
    }
}

/// Total content bytes of a message list, saturating at `usize::MAX`
/// (far above the limit it is compared with).
pub fn chat_content_bytes(messages: &Vec<ChatMessage>) -> (r: usize)
    ensures
        r as int == if chat_bytes(messages@) <= usize::MAX { chat_bytes(messages@) } else { usize::MAX as int },
{
    let n = messages.len();
    let mut total: usize = 0;
    let mut i: usize = 0;
    while i < n
        invariant
            n == messages@.len(),
            i <= n,
            total as int == if chat_bytes(messages@.subrange(0, i as int)) <= usize::MAX {
                chat_bytes(messages@.subrange(0, i as int))
            } else {
                usize::MAX as int
            },
        decreases n - i,
    {
        assert(messages@.subrange(0, i + 1).drop_last() =~= messages@.subrange(0, i as int));
        proof {
            lemma_chat_bytes_nonneg(messages@.subrange(0, i as int));
            match messages@[i as int].content {
                Some(MessageContent::Parts(parts)) => lemma_parts_bytes_nonneg(parts@),
                _ => {},
            }
        }
        let add = message_content_bytes(&messages[i]);
        total = total.saturating_add(add);
        i += 1;
    }
    assert(messages@.subrange(0, n as int) =~= messages@);
    total
}

/// The rejection of an OpenAI chat request, if any: an invalid model name,
/// more than 256 messages, or more than 1 MB of content, checked in that
/// order.
pub open spec fn chat_rejection(model: &str, messages: Seq<ChatMessage>) -> Option<GateError> {
    if !model_ok(model) {
        Some(GateError::InvalidModel)
    } else if messages.len() > MAX_CHAT_MESSAGES {
        Some(GateError::TooManyMessages)
    } else if chat_bytes(messages) > MAX_PROMPT_BYTES {
        Some(GateError::PromptTooLarge)
    } else {
        None
    }
}

/// Admission check of `POST /v1/chat/completions`.
pub fn check_chat_completion(model: &str, messages: &Vec<ChatMessage>) -> (r: Result<(), GateError>)
    ensures
        match chat_rejection(model, messages@) {
            Some(e) => r == Err::<(), GateError>(e),
            None => r is Ok,
        },
{
    if validate_model_name(model).is_err() {
        return Err(GateError::InvalidModel);
    }
    if messages.len() > MAX_CHAT_MESSAGES {
        return Err(GateError::TooManyMessages);
    }
    let total = chat_content_bytes(messages);
    if validate_content_length(total).is_err() {
        return Err(GateError::PromptTooLarge);
    }
    Ok(())
}

/// Caps a requested token budget at the ceiling.
pub fn cap_max_tokens(requested: Option<u32>) -> (r: Option<u32>)
    ensures
        match requested {
            Some(v) => r == Some(if v <= MAX_TOKENS_CEILING { v } else { MAX_TOKENS_CEILING }),
            None => r is None,
        },
{
    match requested {
        Some(v) => Some(
            if v <= MAX_TOKENS_CEILING {
                v
            } else {
                MAX_TOKENS_CEILING
            },
        ),
        None => None,
    }
}

/// The token budget of a request: `max_completion_tokens` (the newer name)
/// when given, else `max_tokens`, capped at the ceiling.
pub fn effective_max_tokens(max_completion_tokens: Option<u32>, max_tokens: Option<u32>) -> (r: Option<u32>)
    ensures
        match (if max_completion_tokens is Some { max_completion_tokens } else { max_tokens }) {
            Some(v) => r == Some(if v <= MAX_TOKENS_CEILING { v } else { MAX_TOKENS_CEILING }),
            None => r is None,
        },
{
    let chosen = if max_completion_tokens.is_some() {
        max_completion_tokens
    } else {
        max_tokens
    };
    cap_max_tokens(chosen)
}

/// Where a chat completion request is served.
#[derive(Debug, Clone, PartialEq, Eq)]
pub enum ChatRoute {
    /// The agentic tool loop through the MCP bridge.
    McpLoop,
    /// The Ollama chat path through the queue.
    OllamaProxy,
    /// The single-prompt queue path for another provider type.
    Queue { provider_type: ProviderType, gemini_tier: Option<String> },
}

/// An API-key caller may use the MCP loop only with at least one MCP grant;
/// session callers always may.
pub fn mcp_access(caller_key: Option<u128>, granted_servers: usize) -> (r: bool)
    ensures
        r == (caller_key is None || granted_servers > 0),
{
    match caller_key {
        None => true,
        Some(_) => granted_servers > 0,
    }
}

/// Routes a chat request. The provider is `ollama` unless given; for
/// `ollama`, the MCP loop is taken when the bridge intercepts and the caller
/// has MCP access, the Ollama path otherwise; any other provider string goes
/// to the queue path with its parsed type and tier.
pub fn chat_route(provider: Option<&str>, bridge_intercepts: bool, has_mcp_access: bool) -> (r: ChatRoute)
    ensures
        (provider is None || provider->0@ == "ollama"@) ==> r == if bridge_intercepts && has_mcp_access {
            ChatRoute::McpLoop
        } else {
            ChatRoute::OllamaProxy
        },
        (provider matches Some(p) && p@ != "ollama"@) ==> r is Queue,
        provider matches Some(p) && p@ == "gemini"@ ==> (r matches ChatRoute::Queue { provider_type, gemini_tier }
            && provider_type == ProviderType::Gemini && gemini_tier is None),
        provider matches Some(p) && p@ == "gemini-free"@ ==> (r matches ChatRoute::Queue {
            provider_type,
            gemini_tier,
        } && provider_type == ProviderType::Gemini && (gemini_tier matches Some(t) && t@ == "free"@)),
        provider matches Some(p) && p@ != "ollama"@ && p@ != "gemini"@ && p@ != "gemini-free"@ ==> (
        r matches ChatRoute::Queue { provider_type, gemini_tier } && provider_type == ProviderType::Ollama
            && gemini_tier is None),
{
    proof {
        reveal_strlit("ollama");
        reveal_strlit("gemini");
        reveal_strlit("gemini-free");
        assert("gemini"@[0] != "ollama"@[0]);
        assert("gemini-free"@.len() != "ollama"@.len());
    }
    let p = match provider {
        Some(p) => p,
        None => "ollama",
    };
    if str_eq(p, "ollama") {
        if bridge_intercepts && has_mcp_access {
            ChatRoute::McpLoop
        } else {
            ChatRoute::OllamaProxy
        }
    } else {
        let (provider_type, gemini_tier) = parse_provider_str(p);
        ChatRoute::Queue { provider_type, gemini_tier }
    }
}

/// The prompt of the queue path: the content of the last `user` message,
/// empty when there is none.
pub open spec fn last_user_content(ms: Seq<ChatMessage>) -> Seq<char>
    decreases ms.len(),
{
    if ms.len() == 0 {
        Seq::empty()
    } else if ms.last().role@ == "user"@ {
        content_text(ms.last().content)
    } else {
        last_user_content(ms.drop_last())
    }
}

/// Takes the prompt of a queue-path chat request; an empty prompt (no user
/// message, or an empty one) is refused.
pub fn legacy_chat_prompt(messages: Vec<ChatMessage>) -> (r: Result<String, GateError>)
    ensures
        last_user_content(messages@).len() == 0 ==> r == Err::<String, GateError>(GateError::NoUserMessage),
        last_user_content(messages@).len() > 0 ==> (r matches Ok(p) && p@ == last_user_content(messages@)),
{
    let ghost all = messages@;
    let mut rest = messages;
    let mut prompt = String::new();
    loop
        invariant_except_break
            last_user_content(all) == last_user_content(rest@),
            prompt@ == Seq::<char>::empty(),
        ensures
            prompt@ == last_user_content(all),
        decreases rest@.len(),
    {
        let ghost before = rest@;
        match rest.pop() {
            None => {
                break;
            },
            Some(m) => {
                assert(before.drop_last() =~= rest@);
                if str_eq(m.role.as_str(), "user") {
                    prompt = m.content_str();
                    break;
                }
            },
        }
    }
    if prompt.as_str().unicode_len() == 0 {
        Err(GateError::NoUserMessage)
    } else {
        Ok(prompt)
    }
}

// ── Conversation ids ─────────────────────────────────────────────────────────

/// Most bytes of an `x-conversation-id` header that is decoded.
pub const MAX_CONVERSATION_HEADER_BYTES: usize = 256;

/// A fresh conversation id (a time-ordered UUID, version 7).
pub fn new_conversation_id() -> (r: u128)
    ensures
        is_uuid_v7(r),
{
    ConvId::new().0
}

/// The public text of a conversation id: `conv_` and its base62 value.
pub fn to_public_id(uuid: u128) -> (r: String)
    ensures
        r@ == pub_id_text("conv"@, uuid),
{
    ConvId::from_uuid(uuid).to_string()
}

/// Decodes a public conversation id (`conv_<base62>`) to its UUID value.
pub fn decode_conversation_id(id: &str) -> (r: Option<u128>)
    ensures
        match pub_id_parse("conv"@, id@) {
            Some(u) => r == Some(u),
            None => r is None,
        },
{
    match ConvId::parse_str(id) {
        Ok(c) => Some(c.0),
        Err(_) => None,
    }
}

/// The conversation id of an `x-conversation-id` header: decoded when the
/// header is present and at most 256 bytes long.
pub fn extract_conversation_id(header: Option<&str>) -> (r: Option<u128>)
    ensures
        match header {
            Some(h) => if h.len() <= MAX_CONVERSATION_HEADER_BYTES {
                match pub_id_parse("conv"@, h@) {
                    Some(u) => r == Some(u),
                    None => r is None,
                }
            } else {
                r is None
            },
            None => r is None,
        },
{
    match header {
        Some(h) => {
            if h.len() <= MAX_CONVERSATION_HEADER_BYTES {
                decode_conversation_id(h)
            } else {
                None
            }
        },
        None => None,
    }
}

/// The conversation of a chat request: the body field when it decodes, else
/// the header.
pub fn request_conversation_id(body: Option<&str>, header: Option<&str>) -> (r: Option<u128>)
    ensures
        match body {
            Some(b) => match pub_id_parse("conv"@, b@) {
                Some(u) => r == Some(u),
                None => r == conversation_id_spec(header),
            },
            None => r == conversation_id_spec(header),
        },
{
    let from_body = match body {
        Some(b) => decode_conversation_id(b),
        None => None,
    };
    match from_body {
        Some(u) => Some(u),
        None => extract_conversation_id(header),
    }
}

/// What `extract_conversation_id` gives.
pub open spec fn conversation_id_spec(header: Option<&str>) -> Option<u128> {
    match header {
        Some(h) => if h.len() <= MAX_CONVERSATION_HEADER_BYTES {
            pub_id_parse("conv"@, h@)
        } else {
            None
        },
        None => None,
    }
}

// ── Ollama generate ──────────────────────────────────────────────────────────

/// The rejection of an Ollama generate request, if any: invalid model,
/// prompt over 1 MB, empty prompt, in that order.
pub open spec fn generate_rejection(model: &str, prompt: &str) -> Option<GateError> {
    if !model_ok(model) {
        Some(GateError::InvalidModel)
    } else if prompt.len() > MAX_PROMPT_BYTES {
        Some(GateError::PromptTooLarge)
    } else if prompt@.len() == 0 {
        Some(GateError::PromptRequired)
    } else {
        None
    }
}

/// Admission check of `POST /api/generate`.
pub fn check_generate(model: &str, prompt: &str) -> (r: Result<(), GateError>)
    ensures
        match generate_rejection(model, prompt) {
            Some(e) => r == Err::<(), GateError>(e),
            None => r is Ok,
        },
{
    if validate_model_name(model).is_err() {
        return Err(GateError::InvalidModel);
    }
    if validate_content_length(prompt.len()).is_err() {
        return Err(GateError::PromptTooLarge);
    }
    if prompt.unicode_len() == 0 {
        return Err(GateError::PromptRequired);
    }
    Ok(())
}

/// A text with an image description in front of it.
pub open spec fn with_analysis(analysis: Seq<char>, text: Seq<char>) -> Seq<char> {
    "[Image Analysis]\n"@ + analysis + "\n\n"@ + text
}

/// Puts an image description in front of a prompt for a model that cannot
/// see images.
pub fn with_image_analysis(analysis: &str, text: &str) -> (r: String)
    ensures
        r@ == with_analysis(analysis@, text@),
{
    let mut r = concat3("[Image Analysis]\n", analysis, "\n\n");
    r.append(text);
    r
}

// ── Ollama chat ──────────────────────────────────────────────────────────────

/// Total bytes of the string contents of a message list (non-string
/// contents count nothing).
pub open spec fn string_content_bytes(ms: Seq<Json>) -> int
    decreases ms.len(),
{
    if ms.len() == 0 {
        0
    } else {
        string_content_bytes(ms.drop_last()) + match str_of(field(ms.last(), "content"@)) {
            Some(c) => byte_len(c) as int,
            None => 0,
        }
    }
}

/// Number of `user` messages.
pub open spec fn user_count(ms: Seq<Json>) -> nat
    decreases ms.len(),
{
    if ms.len() == 0 {
        0
    } else {
        user_count(ms.drop_last()) + if is_user_message(ms.last()) {
            1nat
        } else {
            0nat
        }
    }
}

proof fn lemma_string_content_bytes_nonneg(ms: Seq<Json>)
    ensures
        string_content_bytes(ms) >= 0,
    decreases ms.len(),
{
    if ms.len() > 0 {
        lemma_string_content_bytes_nonneg(ms.drop_last());
    }
}

fn is_user_json(m: &Json) -> (r: bool)
    ensures
        r == is_user_message(*m),
{
    match as_str_of(get_field(m, "role")) {
        Some(role) => str_eq(role, "user"),
        None => false,
    }
}

/// Total string-content bytes of an Ollama message list (saturating).
pub fn ollama_content_bytes(messages: &Vec<Json>) -> (r: usize)
    ensures
        r as int == if string_content_bytes(messages@) <= usize::MAX {
            string_content_bytes(messages@)
        } else {
            usize::MAX as int
        },
{
    let n = messages.len();
    let mut total: usize = 0;
    let mut i: usize = 0;
    while i < n
        invariant
            n == messages@.len(),
            i <= n,
            total as int == if string_content_bytes(messages@.subrange(0, i as int)) <= usize::MAX {
                string_content_bytes(messages@.subrange(0, i as int))
            } else {
                usize::MAX as int
            },
        decreases n - i,
    {
        assert(messages@.subrange(0, i + 1).drop_last() =~= messages@.subrange(0, i as int));
        proof {
            lemma_string_content_bytes_nonneg(messages@.subrange(0, i as int));
        }
        let add: usize = match as_str_of(get_field(&messages[i], "content")) {
            Some(c) => c.len(),
            None => 0,
        };
        total = total.saturating_add(add);
        i += 1;
    }
    assert(messages@.subrange(0, n as int) =~= messages@);
    total
}

/// Counts the `user` messages.
pub fn count_user_messages(messages: &Vec<Json>) -> (r: usize)
    ensures
        r == user_count(messages@),
{
    let n = messages.len();
    let mut count: usize = 0;
    let mut i: usize = 0;
    while i < n
        invariant
            n == messages@.len(),
            i <= n,
            count == user_count(messages@.subrange(0, i as int)),
            count <= i,
        decreases n - i,
    {
        assert(messages@.subrange(0, i + 1).drop_last() =~= messages@.subrange(0, i as int));
        if is_user_json(&messages[i]) {
            count += 1;
        }
        i += 1;
    }
    assert(messages@.subrange(0, n as int) =~= messages@);
    count
}

/// The rejection of an Ollama chat request, if any: invalid model, string
/// content over 1 MB, no `user` message, in that order.
pub open spec fn ollama_chat_rejection(model: &str, messages: Seq<Json>) -> Option<GateError> {
    if !model_ok(model) {
        Some(GateError::InvalidModel)
    } else if string_content_bytes(messages) > MAX_PROMPT_BYTES {
        Some(GateError::PromptTooLarge)
    } else if user_count(messages) == 0 {
        Some(GateError::NoUserMessage)
    } else {
        None
    }
}

/// Admission check of `POST /api/chat`; gives the display prompt (the last
/// user message's string content, or `chat`).
pub fn check_ollama_chat(model: &str, messages: &Vec<Json>) -> (r: Result<String, GateError>)
    ensures
        match ollama_chat_rejection(model, messages@) {
            Some(e) => r == Err::<String, GateError>(e),
            None => r matches Ok(p) && p@ == last_user_prompt(messages@),
        },
{
    if validate_model_name(model).is_err() {
        return Err(GateError::InvalidModel);
    }
    let total = ollama_content_bytes(messages);
    if validate_content_length(total).is_err() {
        return Err(GateError::PromptTooLarge);
    }
    if count_user_messages(messages) == 0 {
        return Err(GateError::NoUserMessage);
    }
    Ok(extract_last_user_prompt(messages).to_owned())
}

/// A continuing conversation (a conversation id and more than one user
/// message) must pass the multi-turn eligibility check.
pub fn needs_multiturn_check(has_conversation: bool, user_messages: usize) -> (r: bool)
    ensures
        r == (has_conversation && user_messages > 1),
{
    has_conversation && user_messages > 1
}

/// The images attached to the user messages, in order: the string items of
/// each user message's `images` array.
pub open spec fn user_images(ms: Seq<Json>) -> Seq<Seq<char>>
    decreases ms.len(),
{
    if ms.len() == 0 {
        Seq::empty()
    } else {
        let rest = user_images(ms.drop_last());
        if is_user_message(ms.last()) {
            match field(ms.last(), "images"@) {
                Some(Json::Array(a)) => rest + string_items(a@),
                _ => rest,
            }
        } else {
            rest
        }
    }
}

fn push_string_items(out: &mut Vec<String>, items: &Vec<Json>)
    ensures
        texts(final(out)@) == texts(old(out)@) + string_items(items@),
{
    let ghost start = texts(out@);
    let n = items.len();
    let mut i: usize = 0;
    while i < n
        invariant
            n == items@.len(),
            i <= n,
            texts(out@) == start + string_items(items@.subrange(0, i as int)),
        decreases n - i,
    {
        assert(items@.subrange(0, i + 1).drop_last() =~= items@.subrange(0, i as int));
        assert(items@.subrange(0, i + 1).last() == items@[i as int]);
        match as_str(&items[i]) {
            Some(t) => {
                let ghost before = out@;
                out.push(t.to_owned());
                assert(texts(out@) =~= texts(before).push(t@));
                assert(start + string_items(items@.subrange(0, i + 1)) =~= (start + string_items(
                    items@.subrange(0, i as int),
                )).push(t@));
            },
            None => {},
        }
        i += 1;
    }
    assert(items@.subrange(0, n as int) =~= items@);
}

/// The images of an Ollama chat request: those of its user messages, or
/// `None` when there are none.
pub fn ollama_chat_images(messages: &Vec<Json>) -> (r: Option<Vec<String>>)
    ensures
        match r {
            Some(v) => texts(v@) == user_images(messages@) && v@.len() > 0,
            None => user_images(messages@).len() == 0,
        },
{
    let mut out: Vec<String> = Vec::new();
    let n = messages.len();
    let mut i: usize = 0;
    while i < n
        invariant
            n == messages@.len(),
            i <= n,
            texts(out@) == user_images(messages@.subrange(0, i as int)),
        decreases n - i,
    {
        assert(messages@.subrange(0, i + 1).drop_last() =~= messages@.subrange(0, i as int));
        assert(messages@.subrange(0, i + 1).last() == messages@[i as int]);
        if is_user_json(&messages[i]) {
            match get_field(&messages[i], "images") {
                Some(Json::Array(a)) => push_string_items(&mut out, a),
                _ => {},
            }
        }
        i += 1;
    }
    assert(messages@.subrange(0, n as int) =~= messages@);
    if out.len() == 0 {
        None
    } else {
        Some(out)
    }
}

/// Position of the last user message.
pub open spec fn last_user_index(ms: Seq<Json>) -> Option<int>
    decreases ms.len(),
{
    if ms.len() == 0 {
        None
    } else if is_user_message(ms.last()) {
        Some(ms.len() - 1)
    } else {
        last_user_index(ms.drop_last())
    }
}

proof fn lemma_last_user_index_bounds(ms: Seq<Json>)
    ensures
        match last_user_index(ms) {
            Some(i) => 0 <= i < ms.len() && is_user_message(ms[i]),
            None => true,
        },
    decreases ms.len(),
{
    if ms.len() > 0 && !is_user_message(ms.last()) {
        lemma_last_user_index_bounds(ms.drop_last());
        match last_user_index(ms.drop_last()) {
            Some(i) => assert(ms.drop_last()[i] == ms[i]),
            None => {},
        }
    }
}

/// The string content of a message, empty when it has none.
pub open spec fn content_or_empty(m: Json) -> Seq<char> {
    match str_of(field(m, "content"@)) {
        Some(c) => c,
        None => Seq::empty(),
    }
}

/// Puts an image description in front of the content of the last user
/// message (a non-string content counts as empty); other messages and
/// fields are kept. Without a user message nothing changes.
pub fn annotate_last_user_message(messages: &mut Vec<Json>, analysis: &str)
    ensures
        final(messages)@.len() == old(messages)@.len(),
        match last_user_index(old(messages)@) {
            None => final(messages)@ == old(messages)@,
            Some(i) => {
                &&& forall|k: int| 0 <= k < old(messages)@.len() && k != i ==> final(messages)@[k] == old(messages)@[k]
                &&& (match field(final(messages)@[i], "content"@) {
                    Some(c) => is_str(c, with_analysis(analysis@, content_or_empty(old(messages)@[i]))),
                    None => false,
                })
                &&& forall|key: Seq<char>| key != "content"@ ==> #[trigger] field(final(messages)@[i], key) == field(
                    old(messages)@[i],
                    key,
                )
            },
        },
{
    let n = messages.len();
    let mut i: usize = n;
    assert(messages@.subrange(0, n as int) =~= messages@);
    while i > 0
        invariant
            n == messages@.len(),
            i <= n,
            last_user_index(messages@) == last_user_index(messages@.subrange(0, i as int)),
        ensures
            i <= n,
            last_user_index(messages@) == last_user_index(messages@.subrange(0, i as int)),
            i > 0 ==> is_user_message(messages@[i - 1]),
        decreases i,
    {
        assert(messages@.subrange(0, i as int).drop_last() =~= messages@.subrange(0, i - 1));
        assert(messages@.subrange(0, i as int).last() == messages@[i - 1]);
        if is_user_json(&messages[i - 1]) {
            break;
        }
        i -= 1;
    }
    if i == 0 {
        assert(messages@.subrange(0, 0) =~= Seq::<Json>::empty());
        return;
    }
    let idx = i - 1;
    assert(messages@.subrange(0, i as int).last() == messages@[idx as int]);
    assert(last_user_index(messages@) == Some(idx as int));
    let ghost old_ms = messages@;
    let m = messages.remove(idx);
    assert(m is Object);
    let existing: String = match as_str_of(get_field(&m, "content")) {
        Some(c) => c.to_owned(),
        None => String::new(),
    };
    assert(existing@ == content_or_empty(m));
    let text = with_image_analysis(analysis, existing.as_str());
    let m2 = set_field(m, "content", Json::String(text));
    messages.insert(idx, m2);
    assert(messages@ =~= old_ms.update(idx as int, m2));
}

/// The images in the content parts of the user messages, in order.
pub open spec fn user_content_images(ms: Seq<ChatMessage>) -> Seq<Seq<char>>
    decreases ms.len(),
{
    if ms.len() == 0 {
        Seq::empty()
    } else {
        let rest = user_content_images(ms.drop_last());
        let m = ms.last();
        if m.role@ == "user"@ {
            match m.content {
                Some(c) => rest + c.images_of(),
                None => rest,
            }
        } else {
            rest
        }
    }
}

/// The images of an OpenAI chat request: the top-level `images`, then
/// those in the content parts of user messages; `None` when there are none.
pub fn openai_chat_images(top: Option<Vec<String>>, messages: &Vec<ChatMessage>) -> (r: Option<Vec<String>>)
    ensures
        ({
            let all = match top {
                Some(v) => texts(v@),
                None => Seq::empty(),
            } + user_content_images(messages@);
            match r {
                Some(v) => texts(v@) == all && all.len() > 0,
                None => all.len() == 0,
            }
        }),
{
    let mut out: Vec<String> = match top {
        Some(v) => v,
        None => Vec::new(),
    };
    let ghost start = texts(out@);
    let n = messages.len();
    let mut i: usize = 0;
    proof {
        reveal_strlit("user");
    }
    assert(start + user_content_images(messages@.subrange(0, 0)) =~= start);
    while i < n
        invariant
            n == messages@.len(),
            i <= n,
            texts(out@) == start + user_content_images(messages@.subrange(0, i as int)),
        decreases n - i,
    {
        assert(messages@.subrange(0, i + 1).drop_last() =~= messages@.subrange(0, i as int));
        assert(messages@.subrange(0, i + 1).last() == messages@[i as int]);
        let m = &messages[i];
        if str_eq(m.role.as_str(), "user") {
            match &m.content {
                Some(c) => {
                    let imgs = c.extract_images();
                    let ghost before = texts(out@);
                    let k = imgs.len();
                    let mut j: usize = 0;
                    while j < k
                        invariant
                            k == imgs@.len(),
                            j <= k,
                            imgs@.len() == c.images_of().len(),
                            forall|q: int| 0 <= q < imgs@.len() ==> imgs@[q]@ == c.images_of()[q],
                            texts(out@) == before + c.images_of().subrange(0, j as int),
                        decreases k - j,
                    {
                        let ghost b2 = texts(out@);
                        out.push(imgs[j].as_str().to_owned());
                        assert(texts(out@) =~= b2.push(imgs@[j as int]@));
                        assert(c.images_of().subrange(0, j + 1) =~= c.images_of().subrange(0, j as int).push(
                            c.images_of()[j as int],
                        ));
                        assert(before + c.images_of().subrange(0, j + 1) =~= (before + c.images_of().subrange(
                            0,
                            j as int,
                        )).push(c.images_of()[j as int]));
                        j += 1;
                    }
                    assert(c.images_of().subrange(0, k as int) =~= c.images_of());
                    assert(start + user_content_images(messages@.subrange(0, i + 1)) =~= before + c.images_of());
                },
                None => {},
            }
        }
        i += 1;
    }
    assert(messages@.subrange(0, n as int) =~= messages@);
    if out.len() == 0 {
        None
    } else {
        Some(out)
    }
}

// ── Text completions ─────────────────────────────────────────────────────────

/// The string items of a JSON array, in order.
pub open spec fn string_items(items: Seq<Json>) -> Seq<Seq<char>>
    decreases items.len(),
{
    if items.len() == 0 {
        Seq::empty()
    } else {
        match str_of(Some(items.last())) {
            Some(s) => string_items(items.drop_last()).push(s),
            None => string_items(items.drop_last()),
        }
    }
}

/// The prompt of a text completion: a string as is, the string items of an
/// array joined with newlines, empty otherwise.
pub open spec fn completion_prompt(prompt: Json) -> Seq<char> {
    match prompt {
        Json::String(s) => s@,
        Json::Array(items) => crate::http::openai::join(string_items(items@), "\n"@),
        _ => Seq::empty(),
    }
}

/// Reads the prompt of a `/v1/completions` request.
pub fn prompt_str(prompt: &Json) -> (r: String)
    ensures
        r@ == completion_prompt(*prompt),
{
    match prompt {
        Json::String(s) => s.clone(),
        Json::Array(items) => {
            let mut r = String::new();
            let mut any = false;
            let n = items.len();
            let mut i: usize = 0;
            while i < n
                invariant
                    n == items@.len(),
                    i <= n,
                    any == (string_items(items@.subrange(0, i as int)).len() > 0),
                    r@ == crate::http::openai::join(string_items(items@.subrange(0, i as int)), "\n"@),
                decreases n - i,
            {
                let ghost prev = string_items(items@.subrange(0, i as int));
                assert(items@.subrange(0, i + 1).drop_last() =~= items@.subrange(0, i as int));
                assert(items@.subrange(0, i + 1).last() == items@[i as int]);
                match as_str(&items[i]) {
                    Some(t) => {
                        assert(prev.push(t@).drop_last() =~= prev);
                        if any {
                            r.append("\n");
                        }
                        r.append(t);
                        any = true;
                    },
                    None => {},
                }
                i += 1;
            }
            assert(items@.subrange(0, n as int) =~= items@);
            r
        },
        _ => String::new(),
    }
}

/// The rejection of a text completion, if any: invalid model, prompt over
/// 1 MB, empty prompt.
pub open spec fn completion_rejection(model: &str, prompt: &str) -> Option<GateError> {
    if !model_ok(model) {
        Some(GateError::InvalidModel)
    } else if prompt.len() > MAX_PROMPT_BYTES {
        Some(GateError::PromptTooLarge)
    } else if prompt@.len() == 0 {
        Some(GateError::EmptyPrompt)
    } else {
        None
    }
}

/// Admission check of `POST /v1/completions`.
pub fn check_text_completion(model: &str, prompt: &str) -> (r: Result<(), GateError>)
    ensures
        match completion_rejection(model, prompt) {
            Some(e) => r == Err::<(), GateError>(e),
            None => r is Ok,
        },
{
    if validate_model_name(model).is_err() {
        return Err(GateError::InvalidModel);
    }
    if validate_content_length(prompt.len()).is_err() {
        return Err(GateError::PromptTooLarge);
    }
    if prompt.unicode_len() == 0 {
        return Err(GateError::EmptyPrompt);
    }
    Ok(())
}

} // verus!
