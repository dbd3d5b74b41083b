//! Gemini-format replies: the chunks of a streamed `streamGenerateContent`,
//! the single reply of `generateContent`, the error body, and the model
//! listing.

use vstd::prelude::*;
use vstd::string::*;

use crate::domain::enums::FinishReason;
use crate::domain::errors::DomainError;
use crate::domain::value_objects::StreamToken;
use crate::http::error::AppError;
use crate::http::inference::is_str;
use crate::http::ollama::is_num;
use crate::http::validation::{gemini_finish_reason, sanitize_sse_error, sse_error_category, to_gemini_finish_reason};
use crate::json::Json;
use crate::text::{
    concat2, concat3, has_prefix, insert_sorted, owned, sort_texts, sorted_texts, starts_with, str_eq, strictly_sorted, texts,
    u64_to_decimal,
};

verus! {

/// The finish reason a final token reports, in Gemini form.
pub open spec fn final_gemini_reason(reason: Option<String>) -> Seq<char> {
    gemini_finish_reason(
        match reason {
            Some(x) => x@,
            None => FinishReason::Stop.name(),
        },
    )
}

/// `c` is a candidate with the given text parts (none, or one text) and
/// finish reason (absent for `None`).
pub open spec fn is_candidate(c: Json, text: Option<Seq<char>>, reason: Option<Seq<char>>) -> bool {
    c matches Json::Object(es) && es@.len() == (if reason is Some { 3int } else { 2int }) && {
        &&& es@[0].0@ == "content"@
        &&& (es@[0].1 matches Json::Object(ct) && ct@.len() == 2 && ct@[0].0@ == "parts"@ && (ct@[0].1 matches Json::Array(
            ps,
        ) && match text {
            Some(t) => ps@.len() == 1 && (ps@[0] matches Json::Object(p) && p@.len() == 1 && p@[0].0@ == "text"@
                && is_str(p@[0].1, t)),
            None => ps@.len() == 0,
        }) && ct@[1].0@ == "role"@ && is_str(ct@[1].1, "model"@))
        &&& es@[1].0@ == "index"@ && is_num(es@[1].1, 0)
        &&& match reason {
            Some(r) => es@[2].0@ == "finishReason"@ && is_str(es@[2].1, r),
            None => true,
        }
    }
}

/// `r` is a Gemini reply with one candidate as given, and the usage block
/// when counts are given.
pub open spec fn is_gemini_reply(
    r: Json,
    text: Option<Seq<char>>,
    reason: Option<Seq<char>>,
    usage: Option<(nat, nat)>,
) -> bool {
    r matches Json::Object(es) && es@.len() == (if usage is Some { 2int } else { 1int }) && {
        &&& es@[0].0@ == "candidates"@ && (es@[0].1 matches Json::Array(cs) && cs@.len() == 1 && is_candidate(
            cs@[0],
            text,
            reason,
        ))
        &&& match usage {
            Some((p, c)) => es@[1].0@ == "usageMetadata"@ && (es@[1].1 matches Json::Object(u) && u@.len() == 2
                && u@[0].0@ == "promptTokenCount"@ && is_num(u@[0].1, p) && u@[1].0@ == "candidatesTokenCount"@
                && is_num(u@[1].1, c)),
            None => true,
        }
    }
}

fn num(n: u32) -> (r: Json)
    ensures
        is_num(r, n as nat),
{
    Json::Number(u64_to_decimal(n as u64))
}

fn text_json(s: &str) -> (r: Json)
    ensures
        is_str(r, s@),
{
    Json::String(owned(s))
}

fn gemini_reply(text: Option<String>, reason: Option<String>, usage: Option<(u32, u32)>) -> (r: Json)
    ensures
        is_gemini_reply(
            r,
            match text {
                Some(t) => Some(t@),
                None => None,
            },
            match reason {
                Some(x) => Some(x@),
                None => None,
            },
            match usage {
                Some((p, c)) => Some((p as nat, c as nat)),
                None => None,
            },
        ),
{
    let mut parts: Vec<Json> = Vec::new();
    match text {
        Some(t) => {
            let mut p: Vec<(String, Json)> = Vec::new();
            p.push((owned("text"), Json::String(t)));
            parts.push(Json::Object(p));
        },
        None => {},
    }
    let mut content: Vec<(String, Json)> = Vec::new();
    content.push((owned("parts"), Json::Array(parts)));
    content.push((owned("role"), text_json("model")));
    let mut cand: Vec<(String, Json)> = Vec::new();
    cand.push((owned("content"), Json::Object(content)));
    cand.push((owned("index"), num(0)));
    match reason {
        Some(x) => cand.push((owned("finishReason"), Json::String(x))),
        None => {},
    }
    let mut cands: Vec<Json> = Vec::new();
    cands.push(Json::Object(cand));
    let mut es: Vec<(String, Json)> = Vec::new();
    es.push((owned("candidates"), Json::Array(cands)));
    match usage {
        Some((p, c)) => {
            let mut u: Vec<(String, Json)> = Vec::new();
            u.push((owned("promptTokenCount"), num(p)));
            u.push((owned("candidatesTokenCount"), num(c)));
            es.push((owned("usageMetadata"), Json::Object(u)));
        },
        None => {},
    }
    Json::Object(es)
}

/// `r` is `{"error": {"message": m}}`.
pub open spec fn is_stream_error(r: Json, m: Seq<char>) -> bool {
    r matches Json::Object(es) && es@.len() == 1 && es@[0].0@ == "error"@ && (es@[0].1 matches Json::Object(e)
        && e@.len() == 1 && e@[0].0@ == "message"@ && is_str(e@[0].1, m))
}

/// One event of a streamed Gemini reply: the final token gives an empty
/// candidate with the finish reason and the token counts (missing counts
/// are 0); another token gives a candidate with its text; an error gives
/// its client-safe category.
pub fn gemini_stream_event(item: Result<StreamToken, DomainError>) -> (r: Json)
    ensures
        match item {
            Ok(t) => if t.is_final {
                is_gemini_reply(
                    r,
                    None,
                    Some(final_gemini_reason(t.finish_reason)),
                    Some(
                        (
                            match t.prompt_tokens {
                                Some(p) => p as nat,
                                None => 0,
                            },
                            match t.completion_tokens {
                                Some(c) => c as nat,
                                None => 0,
                            },
                        ),
                    ),
                )
            } else {
                is_gemini_reply(r, Some(t.value@), None, None)
            },
            Err(e) => is_stream_error(r, sse_error_category(e.message())),
        },
{
    match item {
        Ok(t) => {
            if t.is_final {
                let reason = match &t.finish_reason {
                    Some(x) => to_gemini_finish_reason(Some(x.as_str())),
                    None => to_gemini_finish_reason(None),
                };
                let p = match t.prompt_tokens {
                    Some(p) => p,
                    None => 0,
                };
                let c = match t.completion_tokens {
                    Some(c) => c,
                    None => 0,
                };
                gemini_reply(None, Some(reason), Some((p, c)))
            } else {
                gemini_reply(Some(t.value), None, None)
            }
        },
        Err(e) => {
            let msg = e.to_string();
            let mut inner: Vec<(String, Json)> = Vec::new();
            inner.push((owned("message"), Json::String(sanitize_sse_error(msg.as_str()))));
            let mut es: Vec<(String, Json)> = Vec::new();
            es.push((owned("error"), Json::Object(inner)));
            Json::Object(es)
        },
    }
}

/// What a non-streaming Gemini request collects: the text, and, once the
/// final token arrives, its reason and counts.
#[derive(Debug)]
pub struct GeminiCollected {
    pub text: String,
    pub finish_reason: String,
    pub prompt_tokens: u32,
    pub completion_tokens: u32,
    pub finished: bool,
}

impl GeminiCollected {
    /// Nothing collected: no text, reason `STOP`, no counts.
    pub fn new() -> (r: GeminiCollected)
        ensures
            r.text@.len() == 0,
            r.finish_reason@ == "STOP"@,
            r.prompt_tokens == 0 && r.completion_tokens == 0,
            !r.finished,
    {
        GeminiCollected { text: String::new(), finish_reason: owned("STOP"), prompt_tokens: 0, completion_tokens: 0, finished: false }
    }

    /// Reads one token: the final token sets the reason and the counts and
    /// ends the collection; another token appends its text.
    pub fn absorb(&mut self, t: StreamToken)
        requires
            !old(self).finished,
        ensures
            t.is_final ==> final(self).finished && final(self).text == old(self).text && final(self).finish_reason@
                == final_gemini_reason(t.finish_reason) && final(self).prompt_tokens == (match t.prompt_tokens {
                Some(p) => p,
                None => 0,
            }) && final(self).completion_tokens == (match t.completion_tokens {
                Some(c) => c,
                None => 0,
            }),
            !t.is_final ==> !final(self).finished && final(self).text@ == old(self).text@ + t.value@
                && final(self).finish_reason == old(self).finish_reason && final(self).prompt_tokens
                == old(self).prompt_tokens && final(self).completion_tokens == old(self).completion_tokens,
    {
        if t.is_final {
            self.prompt_tokens = match t.prompt_tokens {
                Some(p) => p,
                None => 0,
            };
            self.completion_tokens = match t.completion_tokens {
                Some(c) => c,
                None => 0,
            };
            self.finish_reason = match &t.finish_reason {
                Some(x) => to_gemini_finish_reason(Some(x.as_str())),
                None => to_gemini_finish_reason(None),
            };
            self.finished = true;
        } else {
            self.text.append(t.value.as_str());
        }
    }

    /// The single reply: one candidate with the whole text, the reason, and
    /// the counts.
    pub fn into_reply(self) -> (r: Json)
        ensures
            is_gemini_reply(
                r,
                Some(self.text@),
                Some(self.finish_reason@),
                Some((self.prompt_tokens as nat, self.completion_tokens as nat)),
            ),
    {
        gemini_reply(Some(self.text), Some(self.finish_reason), Some((self.prompt_tokens, self.completion_tokens)))
    }
}

/// `r` is a Gemini error body with this code, message and status.
pub open spec fn is_gemini_error(r: Json, code: nat, message: Seq<char>, status: Seq<char>) -> bool {
    r matches Json::Object(es) && es@.len() == 1 && es@[0].0@ == "error"@ && (es@[0].1 matches Json::Object(e)
        && e@.len() == 3 && e@[0].0@ == "code"@ && is_num(e@[0].1, code) && e@[1].0@ == "message"@ && is_str(
        e@[1].1,
        message,
    ) && e@[2].0@ == "status"@ && is_str(e@[2].1, status))
}

/// A Gemini-format error body: `{"error": {"code", "message", "status"}}`.
pub fn gemini_error_body(code: u32, status: &str, message: &str) -> (r: Json)
    ensures
        is_gemini_error(r, code as nat, message@, status@),
{
    let mut e: Vec<(String, Json)> = Vec::new();
    e.push((owned("code"), num(code)));
    e.push((owned("message"), text_json(message)));
    e.push((owned("status"), text_json(status)));
    let mut es: Vec<(String, Json)> = Vec::new();
    es.push((owned("error"), Json::Object(e)));
    Json::Object(es)
}

// ── Model listing ────────────────────────────────────────────────────────────

/// Context window advertised for every model.
pub const GEMINI_INPUT_TOKEN_LIMIT: u32 = 128000;

/// Output limit advertised for every model.
pub const GEMINI_OUTPUT_TOKEN_LIMIT: u32 = 8192;

/// `r` describes model `name` in Gemini form.
pub open spec fn is_gemini_model(r: Json, name: Seq<char>) -> bool {
    r matches Json::Object(es) && es@.len() == 7 && {
        &&& es@[0].0@ == "name"@ && is_str(es@[0].1, "models/"@ + name)
        &&& es@[1].0@ == "baseModelId"@ && is_str(es@[1].1, name)
        &&& es@[2].0@ == "displayName"@ && is_str(es@[2].1, name)
        &&& es@[3].0@ == "description"@ && is_str(es@[3].1, Seq::empty())
        &&& es@[4].0@ == "inputTokenLimit"@ && is_num(es@[4].1, 128000)
        &&& es@[5].0@ == "outputTokenLimit"@ && is_num(es@[5].1, 8192)
        &&& es@[6].0@ == "supportedGenerationMethods"@ && (es@[6].1 matches Json::Array(ms) && ms@.len() == 2
            && is_str(ms@[0], "generateContent"@) && is_str(ms@[1], "streamGenerateContent"@))
    }
}

/// The Gemini description of a model.
pub fn gemini_model_json(name: &str) -> (r: Json)
    ensures
        is_gemini_model(r, name@),
{
    let mut methods: Vec<Json> = Vec::new();
    methods.push(text_json("generateContent"));
    methods.push(text_json("streamGenerateContent"));
    let mut es: Vec<(String, Json)> = Vec::new();
    es.push((owned("name"), Json::String(concat2("models/", name))));
    es.push((owned("baseModelId"), text_json(name)));
    es.push((owned("displayName"), text_json(name)));
    es.push((owned("description"), Json::String(String::new())));
    es.push((owned("inputTokenLimit"), num(GEMINI_INPUT_TOKEN_LIMIT)));
    es.push((owned("outputTokenLimit"), num(GEMINI_OUTPUT_TOKEN_LIMIT)));
    es.push((owned("supportedGenerationMethods"), Json::Array(methods)));
    Json::Object(es)
}

/// The model name of a `GET /v1beta/models/{model}` path: the `models/`
/// prefix dropped when present.
pub fn strip_models_prefix(model: &str) -> (r: &str)
    ensures
        r@ == if has_prefix(model@, "models/"@) { model@.subrange(7, model@.len() as int) } else { model@ },
{
    if starts_with(model, "models/") {
        proof {
            reveal_strlit("models/");
        }
        model.substring_char(7, model.unicode_len())
    } else {
        model
    }
}

/// Whether `name` is one of `names`.
pub fn listed(names: &Vec<String>, name: &str) -> (r: bool)
    ensures
        r == texts(names@).contains(name@),
{
    let n = names.len();
    let mut i: usize = 0;
    while i < n
        invariant
            n == names@.len(),
            i <= n,
            forall|k: int| 0 <= k < i ==> names@[k]@ != name@,
        decreases n - i,
    {
        if str_eq(names[i].as_str(), name) {
            assert(texts(names@)[i as int] == name@);
            return true;
        }
        i += 1;
    }
    assert forall|k: int| 0 <= k < texts(names@).len() implies texts(names@)[k] != name@ by {
        assert(texts(names@)[k] == names@[k]@);
    }
    false
}

/// `GET /v1beta/models/{model}`: the model's description when it is among
/// the synced ones, else a 404 Gemini error naming it.
pub fn gemini_model_lookup(model: &str, synced: &Vec<String>) -> (r: Result<Json, Json>)
    ensures
        ({
            let name = if has_prefix(model@, "models/"@) { model@.subrange(7, model@.len() as int) } else { model@ };
            if texts(synced@).contains(name) {
                r matches Ok(j) && is_gemini_model(j, name)
            } else {
                r matches Err(j) && is_gemini_error(j, 404, "model not found: "@ + name, "NOT_FOUND"@)
            }
        }),
{
    let name = strip_models_prefix(model);
    if listed(synced, name) {
        Ok(gemini_model_json(name))
    } else {
        let msg = concat2("model not found: ", name);
        Err(gemini_error_body(404, "NOT_FOUND", msg.as_str()))
    }
}

/// The OpenAI `GET /v1/models/{id}` decision: owned by `ollama` when the
/// id is a synced Ollama model, else by `google` when it is a Gemini model,
/// else 404.
pub fn openai_model_owner(model_id: &str, ollama: &Vec<String>, gemini: &Vec<String>) -> (r: Result<
    &'static str,
    AppError,
>)
    ensures
        texts(ollama@).contains(model_id@) ==> r == Ok::<&'static str, AppError>("ollama"),
        !texts(ollama@).contains(model_id@) && texts(gemini@).contains(model_id@) ==> r == Ok::<
            &'static str,
            AppError,
        >("google"),
        !texts(ollama@).contains(model_id@) && !texts(gemini@).contains(model_id@) ==> (r matches Err(
            AppError::NotFound(m),
        ) && m@ == "The model '"@ + model_id@ + "' does not exist"@),
{
    if listed(ollama, model_id) {
        Ok("ollama")
    } else if listed(gemini, model_id) {
        Ok("google")
    } else {
        Err(AppError::NotFound(concat3("The model '", model_id, "' does not exist")))
    }
}

/// Some provider has model `x` enabled.
pub open spec fn enabled_somewhere(enabled: Seq<Vec<String>>, x: Seq<char>) -> bool {
    exists|i: int| 0 <= i < enabled.len() && texts((#[trigger] enabled[i])@).contains(x)
}

/// The names `GET /v1beta/models` lists: the models enabled on any active
/// Ollama provider, each once, sorted; when none is enabled anywhere, all
/// synced models, sorted.
pub fn gemini_listing_names(enabled: &Vec<Vec<String>>, synced: &Vec<String>) -> (r: Vec<String>)
    ensures
        (exists|x: Seq<char>| enabled_somewhere(enabled@, x)) ==> strictly_sorted(texts(r@)) && forall|x: Seq<char>|
            #[trigger] texts(r@).contains(x) <==> enabled_somewhere(enabled@, x),
        !(exists|x: Seq<char>| enabled_somewhere(enabled@, x)) ==> sorted_texts(texts(r@)) && texts(r@).to_multiset()
            == texts(synced@).to_multiset(),
{
    let mut names: Vec<String> = Vec::new();
    let n = enabled.len();
    let mut i: usize = 0;
    while i < n
        invariant
            n == enabled@.len(),
            i <= n,
            strictly_sorted(texts(names@)),
            forall|x: Seq<char>| texts(names@).contains(x) <==> enabled_somewhere(enabled@.subrange(0, i as int), x),
        decreases n - i,
    {
        let list = &enabled[i];
        let m = list.len();
        let mut j: usize = 0;
        let ghost pre = enabled@.subrange(0, i as int);
        while j < m
            invariant
                m == list@.len(),
                j <= m,
                pre == enabled@.subrange(0, i as int),
                list == enabled@[i as int],
                strictly_sorted(texts(names@)),
                forall|x: Seq<char>| texts(names@).contains(x) <==> (enabled_somewhere(pre, x) || texts(
                    list@.subrange(0, j as int),
                ).contains(x)),
            decreases m - j,
        {
            let ghost before = texts(names@);
            assert(forall|x: Seq<char>| before.contains(x) <==> (enabled_somewhere(pre, x) || texts(list@.subrange(0, j as int)).contains(x)));
            insert_sorted(&mut names, list[j].as_str());
            proof {
                let a = texts(list@.subrange(0, j as int));
                let b = texts(list@.subrange(0, j + 1));
                assert(b =~= a.push(list@[j as int]@));
                assert forall|x: Seq<char>| texts(names@).contains(x) <==> (enabled_somewhere(pre, x) || b.contains(x)) by {
                    assert(texts(names@).contains(x) <==> (before.contains(x) || x == list@[j as int]@));
                    if a.contains(x) {
                        let k = choose|k: int| 0 <= k < a.len() && a[k] == x;
                        assert(b[k] == x);
                    }
                    if b.contains(x) {
                        let k = choose|k: int| 0 <= k < b.len() && b[k] == x;
                        if k < j {
                            assert(a[k] == x);
                        }
                    }
                    if x == list@[j as int]@ {
                        assert(b[j as int] == x);
                    }
                }
            }
            j += 1;
        }
        proof {
            assert(list@.subrange(0, m as int) =~= list@);
            let post = enabled@.subrange(0, i + 1);
            assert(post =~= pre.push(enabled@[i as int]));
            assert forall|x: Seq<char>| texts(names@).contains(x) <==> enabled_somewhere(post, x) by {
                if enabled_somewhere(post, x) {
                    let k = choose|k: int| 0 <= k < post.len() && texts((#[trigger] post[k])@).contains(x);
                    if k < i {
                        assert(pre[k] == post[k]);
                    }
                }
                if enabled_somewhere(pre, x) {
                    let k = choose|k: int| 0 <= k < pre.len() && texts((#[trigger] pre[k])@).contains(x);
                    assert(post[k] == pre[k]);
                }
                if texts(list@).contains(x) {
                    assert(post[i as int] == enabled@[i as int]);
                }
            }
        }
        i += 1;
    }
    assert(enabled@.subrange(0, n as int) =~= enabled@);
    if names.len() == 0 {
        proof {
            assert forall|x: Seq<char>| !enabled_somewhere(enabled@, x) by {
                if enabled_somewhere(enabled@, x) {
                    assert(texts(names@).contains(x));
                }
            }
        }
        sort_texts(synced)
    } else {
        proof {
            let x = texts(names@)[0];
            assert(texts(names@).contains(x));
        }
        names
    }
}

/// `r` lists the models `names` in Gemini form.
pub fn gemini_model_list(names: &Vec<String>) -> (r: Json)
    ensures
        r matches Json::Object(es) && es@.len() == 1 && es@[0].0@ == "models"@ && (es@[0].1 matches Json::Array(ms)
            && ms@.len() == names@.len() && forall|k: int| 0 <= k < ms@.len() ==> is_gemini_model(#[trigger] ms@[k], names@[k]@)),
{
    let mut ms: Vec<Json> = Vec::new();
    let n = names.len();
    let mut i: usize = 0;
    while i < n
        invariant
            n == names@.len(),
            i <= n,
            ms@.len() == i,
            forall|k: int| 0 <= k < i ==> is_gemini_model(#[trigger] ms@[k], names@[k]@),
        decreases n - i,
    {
        ms.push(gemini_model_json(names[i].as_str()));
        i += 1;
    }
    let mut es: Vec<(String, Json)> = Vec::new();
    es.push((owned("models"), Json::Array(ms)));
    Json::Object(es)
}

} // verus!
