//! `POST /v1/embeddings`: admission of the request, the Ollama provider it
//! goes to, the `/api/embed` call made there, and the token count read back.

use vstd::prelude::*;
use vstd::string::*;

use crate::domain::entities::LlmProvider;
use crate::domain::enums::ProviderType;
use crate::http::constants::{ERR_MODEL_INVALID, ERR_PROMPT_TOO_LARGE, MAX_MODEL_NAME_BYTES, MAX_PROMPT_BYTES};
use crate::http::error::AppError;
use crate::http::inference::{byte_len, is_str};
use crate::http::openai::EmbeddingInput;
use crate::http::validation::{validate_content_length, validate_model_name};
use crate::json::{as_u64, field, get_field, u64_of, Json};
use crate::text::{texts, concat2, owned};

verus! {

/// Refusal when no Ollama provider can serve embeddings.
pub const ERR_NO_EMBEDDING_PROVIDER: &'static str = "no Ollama provider available for embeddings";

/// Body of `POST /v1/embeddings`.
#[derive(Debug)]
pub struct EmbeddingRequest {
    pub model: String,
    pub input: EmbeddingInput,
    pub encoding_format: Option<String>,
    pub user: Option<String>,
}

/// Total UTF-8 bytes of a list of texts.
pub open spec fn texts_bytes(ts: Seq<Seq<char>>) -> int
    decreases ts.len(),
{
    if ts.len() == 0 {
        0
    } else {
        texts_bytes(ts.drop_last()) + byte_len(ts.last()) as int
    }
}

proof fn lemma_texts_bytes_nonneg(ts: Seq<Seq<char>>)
    ensures
        texts_bytes(ts) >= 0,
    decreases ts.len(),
{
    if ts.len() > 0 {
        lemma_texts_bytes_nonneg(ts.drop_last());
    }
}

/// The refusal of an embeddings request, if any: an invalid model name,
/// then more than 1 MB of input.
/// (Both are 400; the message is given.)
pub open spec fn embedding_refusal(model: Seq<char>, inputs: Seq<Seq<char>>) -> Option<Seq<char>> {
    if !(model.len() > 0 && byte_len(model) <= MAX_MODEL_NAME_BYTES) {
        Some(ERR_MODEL_INVALID@)
    } else if texts_bytes(inputs) > MAX_PROMPT_BYTES {
        Some(ERR_PROMPT_TOO_LARGE@)
    } else {
        None
    }
}

/// Total input bytes, saturating at `usize::MAX`.
fn inputs_bytes(inputs: &Vec<String>) -> (r: usize)
    ensures
        r as int == if texts_bytes(texts(inputs@)) <= usize::MAX {
            texts_bytes(texts(inputs@))
        } else {
            usize::MAX as int
        },
{
    let n = inputs.len();
    let mut total: usize = 0;
    let mut i: usize = 0;
    while i < n
        invariant
            n == inputs@.len(),
            i <= n,
            total as int == if texts_bytes(texts(inputs@.subrange(0, i as int))) <= usize::MAX {
                texts_bytes(texts(inputs@.subrange(0, i as int)))
            } else {
                usize::MAX as int
            },
        decreases n - i,
    {
        assert(texts(inputs@.subrange(0, i + 1)).drop_last() =~= texts(inputs@.subrange(0, i as int)));
        assert(texts(inputs@.subrange(0, i + 1)).last() == inputs@[i as int]@);
        proof {
            lemma_texts_bytes_nonneg(texts(inputs@.subrange(0, i as int)));
        }
        total = total.saturating_add(inputs[i].as_str().len());
        i += 1;
    }
    assert(inputs@.subrange(0, n as int) =~= inputs@);
    total
}

/// Admission of an embeddings request: the model name, then the total input
/// size. On success the inputs are handed back as a list.
pub fn check_embedding_request(req: EmbeddingRequest) -> (r: Result<(String, Vec<String>), AppError>)
    ensures
        ({
            let inputs = match req.input {
                EmbeddingInput::Single(s) => seq![s@],
                EmbeddingInput::Multiple(v) => texts(v@),
            };
            match embedding_refusal(req.model@, inputs) {
                Some(m) => r matches Err(e) && e.is_bad_request(m),
                None => r matches Ok((m, v)) && m@ == req.model@ && texts(v@) == inputs,
            }
        }),
{
    let EmbeddingRequest { model, input, encoding_format: _, user: _ } = req;
    let ghost spec_inputs = match &input {
        EmbeddingInput::Single(s) => seq![s@],
        EmbeddingInput::Multiple(v) => texts(v@),
    };
    if validate_model_name(model.as_str()).is_err() {
        return Err(AppError::BadRequest(owned(ERR_MODEL_INVALID)));
    }
    let inputs = input.into_strings();
    assert(texts(inputs@) =~= spec_inputs);
    let total = inputs_bytes(&inputs);
    if validate_content_length(total).is_err() {
        return Err(AppError::BadRequest(owned(ERR_PROMPT_TOO_LARGE)));
    }
    Ok((model, inputs))
}

/// Picks the provider that serves embeddings: the first Ollama provider of
/// the active ones; with none, 503.
pub fn pick_embedding_provider(providers: &Vec<LlmProvider>) -> (r: Result<usize, AppError>)
    ensures
        match r {
            Ok(i) => i < providers@.len() && providers@[i as int].provider_type == ProviderType::Ollama
                && forall|k: int| 0 <= k < i ==> providers@[k].provider_type != ProviderType::Ollama,
            Err(e) => (forall|k: int| 0 <= k < providers@.len() ==> providers@[k].provider_type != ProviderType::Ollama)
                && (e matches AppError::ServiceUnavailable(m) && m@ == ERR_NO_EMBEDDING_PROVIDER@),
        },
{
    let n = providers.len();
    let mut i: usize = 0;
    while i < n
        invariant
            n == providers@.len(),
            i <= n,
            forall|k: int| 0 <= k < i ==> providers@[k].provider_type != ProviderType::Ollama,
        decreases n - i,
    {
        if providers[i].is_ollama() {
            return Ok(i);
        }
        i += 1;
    }
    Err(AppError::ServiceUnavailable(owned(ERR_NO_EMBEDDING_PROVIDER)))
}

/// The embed endpoint of a provider URL.
pub fn embed_endpoint(base: &str) -> (r: String)
    ensures
        r@ == base@ + "/api/embed"@,
{
    concat2(base, "/api/embed")
}

/// Builds the `/api/embed` body: the model and the list of inputs.
pub fn embed_request_body(model: &str, inputs: &Vec<String>) -> (r: Json)
    ensures
        r matches Json::Object(es) && es@.len() == 2 && {
            &&& es@[0].0@ == "model"@ && is_str(es@[0].1, model@)
            &&& es@[1].0@ == "input"@ && (es@[1].1 matches Json::Array(a) && a@.len() == inputs@.len()
                && forall|k: int| 0 <= k < a@.len() ==> is_str(#[trigger] a@[k], inputs@[k]@))
        },
{
    let mut items: Vec<Json> = Vec::new();
    let n = inputs.len();
    let mut i: usize = 0;
    while i < n
        invariant
            n == inputs@.len(),
            i <= n,
            items@.len() == i,
            forall|k: int| 0 <= k < i ==> is_str(#[trigger] items@[k], inputs@[k]@),
        decreases n - i,
    {
        items.push(Json::String(owned(inputs[i].as_str())));
        i += 1;
    }
    let mut es: Vec<(String, Json)> = Vec::new();
    es.push((owned("model"), Json::String(owned(model))));
    es.push((owned("input"), Json::Array(items)));
    Json::Object(es)
}

/// The prompt token count of an `/api/embed` reply: `prompt_eval_count`
/// when it is a non-negative 64-bit integer (truncated to 32 bits), else 0.
pub fn embed_prompt_tokens(reply: &Json) -> (r: u32)
    ensures
        r == match u64_of(field(*reply, "prompt_eval_count"@)) {
            Some(v) => v as u32,
            None => 0,
        },
{
    match as_u64(get_field(reply, "prompt_eval_count")) {
        Some(v) => v as u32,
        None => 0,
    }
}

} // verus!
