//! Gemini API compatibility: request parts, conversion of Gemini contents
//! and tools to Ollama messages, request dispatch, and key masking.

use vstd::prelude::*;
use vstd::string::*;
use vstd::utf8::*;

use crate::http::constants::{ERR_MODEL_INVALID, ERR_PROMPT_TOO_LARGE};

use crate::http::inference::{byte_len, is_str};
use crate::json::{json_text, to_json_text, Json};
use crate::http::validation::{validate_content_length, validate_model_name};
use crate::text::{concat2, concat3, str_eq};

verus! {

/// The masked display form of an API key: `****` for keys of at most eight
/// bytes, otherwise the first four bytes, `...`, and the last four bytes.
pub open spec fn masked_key(key: &str) -> Seq<char> {
    let b = key.spec_bytes();
    if key.len() <= 8 {
        "****"@
    } else {
        decode_utf8(b.subrange(0, 4)) + "..."@ + decode_utf8(b.subrange(key.len() - 4, b.len() as int))
    }
}

/// `masked_key` of the text `k` (its byte length taken as `str::len` does).
pub open spec fn masked_text(k: Seq<char>) -> Seq<char> {
    let b = encode_utf8(k);
    let n = b.len() as usize;
    if n <= 8 {
        "****"@
    } else {
        decode_utf8(b.subrange(0, 4)) + "..."@ + decode_utf8(b.subrange(n - 4, b.len() as int))
    }
}

/// The text `k` can be masked: when longer than eight bytes, both cut
/// points fall on character boundaries.
pub open spec fn maskable_text(k: Seq<char>) -> bool {
    let b = encode_utf8(k);
    let n = b.len() as usize;
    n > 8 ==> is_char_boundary(b, 4) && is_char_boundary(b, n - 4)
}

/// Masks an API key for display. Slicing a key of more than eight bytes
/// needs both cut points on character boundaries.
pub fn mask_api_key(key: &str) -> (r: String)
    requires
        key.len() > 8 ==> is_char_boundary(key.spec_bytes(), 4),
        key.len() > 8 ==> is_char_boundary(key.spec_bytes(), key.len() - 4),
    ensures
        r@ == masked_key(key),
{
    let n = key.len();
    if n <= 8 {
        "****".to_owned()
    } else {
        let (head, _) = key.split_at(4);
        let (_, tail) = key.split_at(n - 4);
        proof {
            encode_utf8_decode_utf8(head@);
            encode_utf8_decode_utf8(tail@);
        }
        concat3(head, "...", tail)
    }
}

// ── Request types ────────────────────────────────────────────────────────────

/// A tool invocation requested by the model.
#[derive(Debug)]
pub struct GeminiFunctionCall {
    pub name: String,
    pub args: Json,
}

/// The result of a tool invocation, sent back by the client.
#[derive(Debug)]
pub struct GeminiFunctionResponse {
    pub name: String,
    pub response: Json,
}

/// One part of a Gemini content.
#[derive(Debug)]
pub enum GeminiPart {
    FunctionCall { function_call: GeminiFunctionCall },
    FunctionResponse { function_response: GeminiFunctionResponse },
    Text { text: String },
    /// Any other part (images and the like); ignored.
    Other(Json),
}

/// A Gemini content: a role (`user` when absent, or `model`) and its parts.
#[derive(Debug)]
pub struct GeminiContent {
    pub role: Option<String>,
    pub parts: Vec<GeminiPart>,
}

/// A declared tool function.
#[derive(Debug)]
pub struct GeminiFunctionDeclaration {
    pub name: String,
    pub description: Option<String>,
    pub parameters: Option<Json>,
}

/// A Gemini tool: a list of function declarations.
#[derive(Debug)]
pub struct GeminiTool {
    pub function_declarations: Vec<GeminiFunctionDeclaration>,
}

// ── Text parts ───────────────────────────────────────────────────────────────

/// The texts of the text parts, concatenated.
pub open spec fn parts_text(parts: Seq<GeminiPart>) -> Seq<char>
    decreases parts.len(),
{
    if parts.len() == 0 {
        Seq::empty()
    } else {
        parts_text(parts.drop_last()) + match parts.last() {
            GeminiPart::Text { text } => text@,
            _ => Seq::empty(),
        }
    }
}

/// Concatenates the text parts.
pub fn extract_text_parts(parts: &Vec<GeminiPart>) -> (r: String)
    ensures
        r@ == parts_text(parts@),
{
    let mut r = String::new();
    let n = parts.len();
    let mut i: usize = 0;
    while i < n
        invariant
            n == parts@.len(),
            i <= n,
            r@ == parts_text(parts@.subrange(0, i as int)),
        decreases n - i,
    {
        assert(parts@.subrange(0, i + 1).drop_last() =~= parts@.subrange(0, i as int));
        match &parts[i] {
            GeminiPart::Text { text } => {
                r.append(text.as_str());
            },
            _ => {
                assert(r@ + Seq::<char>::empty() =~= r@);
            },
        }
        i += 1;
    }
    assert(parts@.subrange(0, n as int) =~= parts@);
    r
}

// ── Contents to Ollama messages ──────────────────────────────────────────────

/// A planned Ollama message: whether it is a tool result, the role (or the
/// tool name for a tool result), the content, and the tool calls (name and
/// arguments).
pub type PlannedMessage = (bool, Seq<char>, Seq<char>, Seq<(Seq<char>, Json)>);

/// The tool-result message of a function response: the tool name and the
/// JSON text of the response.
pub open spec fn tool_result_message(fr: GeminiFunctionResponse) -> PlannedMessage {
    (true, fr.name@, json_text(fr.response), Seq::empty())
}

/// Tool-result messages of the function-response parts, in order.
pub open spec fn response_messages(parts: Seq<GeminiPart>) -> Seq<PlannedMessage>
    decreases parts.len(),
{
    if parts.len() == 0 {
        Seq::empty()
    } else {
        let rest = response_messages(parts.drop_last());
        match parts.last() {
            GeminiPart::FunctionResponse { function_response } => rest.push(
                tool_result_message(function_response),
            ),
            _ => rest,
        }
    }
}

/// The tool calls of the function-call parts, in order.
pub open spec fn part_calls(parts: Seq<GeminiPart>) -> Seq<(Seq<char>, Json)>
    decreases parts.len(),
{
    if parts.len() == 0 {
        Seq::empty()
    } else {
        let rest = part_calls(parts.drop_last());
        match parts.last() {
            GeminiPart::FunctionCall { function_call } => rest.push(
                (function_call.name@, function_call.args),
            ),
            _ => rest,
        }
    }
}

/// Every part is a function response (vacuously so for no parts).
pub open spec fn all_responses(parts: Seq<GeminiPart>) -> bool {
    forall|i: int| 0 <= i < parts.len() ==> #[trigger] parts[i] is FunctionResponse
}

/// The Ollama role of a Gemini role: `model` is `assistant`, no role is
/// `user`, others are kept.
pub open spec fn ollama_role(role: Option<String>) -> Seq<char> {
    match role {
        None => "user"@,
        Some(r) => if r@ == "model"@ {
            "assistant"@
        } else {
            r@
        },
    }
}

/// The messages of one content: a content of function responses only
/// becomes their tool-result messages; otherwise the tool results of its
/// function-response parts come first, then one message with the role, the
/// concatenated texts and the function calls.
pub open spec fn content_messages(c: GeminiContent) -> Seq<PlannedMessage> {
    if all_responses(c.parts@) {
        response_messages(c.parts@)
    } else {
        response_messages(c.parts@).push(
            (false, ollama_role(c.role), parts_text(c.parts@), part_calls(c.parts@)),
        )
    }
}

/// The messages of all contents, in order.
pub open spec fn contents_messages(cs: Seq<GeminiContent>) -> Seq<PlannedMessage>
    decreases cs.len(),
{
    if cs.len() == 0 {
        Seq::empty()
    } else {
        contents_messages(cs.drop_last()) + content_messages(cs.last())
    }
}

/// The turn message of a content that is not all function responses is a
/// chat message (not a tool result) whose role follows the Gemini role: no
/// role is `user`, `model` is `assistant`, any other role is kept.
pub proof fn lemma_turn_role(c: GeminiContent)
    requires
        !all_responses(c.parts@),
    ensures
        content_messages(c).len() >= 1,
        !content_messages(c).last().0,
        c.role is None ==> content_messages(c).last().1 == "user"@,
        c.role matches Some(r) ==> content_messages(c).last().1 == (if r@ == "model"@ {
            "assistant"@
        } else {
            r@
        }),
{
}

/// A content of text parts only (at least one).
pub open spec fn text_only(c: GeminiContent) -> bool {
    &&& c.parts@.len() > 0
    &&& forall|i: int| 0 <= i < c.parts@.len() ==> #[trigger] c.parts@[i] is Text
}

proof fn lemma_text_parts_no_responses(parts: Seq<GeminiPart>)
    requires
        forall|i: int| 0 <= i < parts.len() ==> #[trigger] parts[i] is Text,
    ensures
        response_messages(parts).len() == 0,
    decreases parts.len(),
{
    if parts.len() > 0 {
        assert forall|i: int| 0 <= i < parts.drop_last().len() implies #[trigger] parts.drop_last()[i] is Text by {
            assert(parts.drop_last()[i] == parts[i]);
        }
        lemma_text_parts_no_responses(parts.drop_last());
        assert(parts[parts.len() - 1] is Text);
    }
}

/// A conversation of text-only turns becomes one chat message per turn, in
/// order: a turn without a role is a `user` message, a `model` turn an
/// `assistant` message, a `user` turn a `user` message.
pub proof fn lemma_text_turn_roles(cs: Seq<GeminiContent>)
    requires
        forall|k: int| 0 <= k < cs.len() ==> #[trigger] text_only(cs[k]),
    ensures
        contents_messages(cs).len() == cs.len(),
        forall|k: int| 0 <= k < cs.len() ==> !(#[trigger] contents_messages(cs)[k]).0,
        forall|k: int| 0 <= k < cs.len() && cs[k].role is None ==> (#[trigger] contents_messages(cs)[k]).1 == "user"@,
        forall|k: int|
            0 <= k < cs.len() && (cs[k].role matches Some(r) && r@ == "model"@) ==> (#[trigger] contents_messages(
                cs,
            )[k]).1 == "assistant"@,
        forall|k: int|
            0 <= k < cs.len() && (cs[k].role matches Some(r) && r@ == "user"@) ==> (#[trigger] contents_messages(
                cs,
            )[k]).1 == "user"@,
    decreases cs.len(),
{
    reveal_strlit("user");
    reveal_strlit("model");
    assert("user"@.len() != "model"@.len());
    if cs.len() > 0 {
        let init = cs.drop_last();
        assert forall|k: int| 0 <= k < init.len() implies #[trigger] text_only(init[k]) by {
            assert(init[k] == cs[k]);
        }
        lemma_text_turn_roles(init);
        let c = cs.last();
        assert(text_only(cs[cs.len() - 1]));
        lemma_text_parts_no_responses(c.parts@);
        assert(c.parts@[0] is Text);
        assert(!all_responses(c.parts@));
        lemma_turn_role(c);
        assert(content_messages(c).len() == 1);
        let whole = contents_messages(cs);
        assert(whole == contents_messages(init) + content_messages(c));
        assert forall|k: int| 0 <= k < init.len() implies whole[k] == contents_messages(init)[k] && cs[k]
            == init[k] by {}
    }
}

/// The system message of a system instruction with non-empty text.
pub open spec fn system_messages(system: Option<GeminiContent>) -> Seq<PlannedMessage> {
    match system {
        Some(sys) => if parts_text(sys.parts@).len() > 0 {
            seq![(false, "system"@, parts_text(sys.parts@), Seq::<(Seq<char>, Json)>::empty())]
        } else {
            Seq::empty()
        },
        None => Seq::empty(),
    }
}

/// `e` is the key `key` with the string value `s`.
pub open spec fn str_entry(e: (String, Json), key: Seq<char>, s: Seq<char>) -> bool {
    e.0@ == key && is_str(e.1, s)
}

/// `x` is the Ollama tool call `{"function": {"name", "arguments"}}`.
pub open spec fn is_call_json(x: Json, call: (Seq<char>, Json)) -> bool {
    &&& x matches Json::Object(es)
    &&& es@.len() == 1
    &&& es@[0].0@ == "function"@
    &&& (es@[0].1 matches Json::Object(fs) && fs@.len() == 2 && str_entry(fs@[0], "name"@, call.0)
        && fs@[1].0@ == "arguments"@ && fs@[1].1 == call.1)
}

/// `e` is the `tool_calls` entry holding the calls.
pub open spec fn calls_entry(e: (String, Json), calls: Seq<(Seq<char>, Json)>) -> bool {
    &&& e.0@ == "tool_calls"@
    &&& (e.1 matches Json::Array(xs) && xs@.len() == calls.len() && forall|k: int|
        0 <= k < xs@.len() ==> is_call_json(#[trigger] xs@[k], calls[k]))
}

/// `j` is the JSON of planned message `m`: a tool result is
/// `{"role": "tool", "name", "content"}`; another message is
/// `{"role", "content"}` plus `tool_calls` when it has any.
pub open spec fn is_message_json(j: Json, m: PlannedMessage) -> bool {
    &&& j matches Json::Object(es)
    &&& if m.0 {
        es@.len() == 3 && str_entry(es@[0], "role"@, "tool"@) && str_entry(es@[1], "name"@, m.1)
            && str_entry(es@[2], "content"@, m.2)
    } else {
        &&& es@.len() == if m.3.len() > 0 { 3int } else { 2int }
        &&& str_entry(es@[0], "role"@, m.1)
        &&& str_entry(es@[1], "content"@, m.2)
        &&& m.3.len() > 0 ==> calls_entry(es@[2], m.3)
    }
}

/// `out` holds exactly the JSON of the planned messages, in order.
pub open spec fn renders(out: Seq<Json>, plan: Seq<PlannedMessage>) -> bool {
    out.len() == plan.len() && forall|i: int| 0 <= i < out.len() ==> is_message_json(#[trigger] out[i], plan[i])
}

fn message_json(role: String, content: String) -> (r: Json)
    ensures
        is_message_json(r, (false, role@, content@, Seq::empty())),
{
    let mut es: Vec<(String, Json)> = Vec::new();
    es.push(("role".to_owned(), Json::String(role)));
    es.push(("content".to_owned(), Json::String(content)));
    Json::Object(es)
}

fn tool_result_json(fr: GeminiFunctionResponse) -> (r: Json)
    ensures
        is_message_json(r, tool_result_message(fr)),
{
    let content = to_json_text(&fr.response);
    let mut es: Vec<(String, Json)> = Vec::new();
    es.push(("role".to_owned(), Json::String("tool".to_owned())));
    es.push(("name".to_owned(), Json::String(fr.name)));
    es.push(("content".to_owned(), Json::String(content)));
    Json::Object(es)
}

fn call_json(fc: GeminiFunctionCall) -> (r: Json)
    ensures
        is_call_json(r, (fc.name@, fc.args)),
{
    let mut fs: Vec<(String, Json)> = Vec::new();
    fs.push(("name".to_owned(), Json::String(fc.name)));
    fs.push(("arguments".to_owned(), fc.args));
    let mut es: Vec<(String, Json)> = Vec::new();
    es.push(("function".to_owned(), Json::Object(fs)));
    Json::Object(es)
}

fn role_of(role: Option<String>) -> (r: String)
    ensures
        r@ == ollama_role(role),
{
    match role {
        None => "user".to_owned(),
        Some(r) => {
            if str_eq(r.as_str(), "model") {
                "assistant".to_owned()
            } else {
                r
            }
        },
    }
}

fn only_responses(parts: &Vec<GeminiPart>) -> (r: bool)
    ensures
        r == all_responses(parts@),
{
    let n = parts.len();
    let mut i: usize = 0;
    while i < n
        invariant
            n == parts@.len(),
            i <= n,
            forall|j: int| 0 <= j < i ==> #[trigger] parts@[j] is FunctionResponse,
        decreases n - i,
    {
        match &parts[i] {
            GeminiPart::FunctionResponse { .. } => {},
            _ => {
                return false;
            },
        }
        i += 1;
    }
    true
}

/// Appends the messages of one content to `out`.
fn push_content_messages(out: &mut Vec<Json>, c: GeminiContent)
    ensures
        final(out)@.len() == old(out)@.len() + content_messages(c).len(),
        final(out)@.subrange(0, old(out)@.len() as int) == old(out)@,
        forall|i: int|
            0 <= i < content_messages(c).len() ==> is_message_json(
                #[trigger] final(out)@[old(out)@.len() + i],
                content_messages(c)[i],
            ),
{
    let ghost c0 = c;
    let ghost start = out@.len();
    let only = only_responses(&c.parts);
    let GeminiContent { role, parts } = c;
    let ghost all_parts = parts@;
    let mut rest = parts;
    let mut texts = String::new();
    let mut calls: Vec<Json> = Vec::new();
    let mut k: usize = 0;
    let n = rest.len();
    while k < n
        invariant
            n == all_parts.len(),
            k <= n,
            rest@ == all_parts.subrange(k as int, n as int),
            texts@ == parts_text(all_parts.subrange(0, k as int)),
            calls@.len() == part_calls(all_parts.subrange(0, k as int)).len(),
            forall|j: int|
                0 <= j < calls@.len() ==> is_call_json(
                    #[trigger] calls@[j],
                    part_calls(all_parts.subrange(0, k as int))[j],
                ),
            out@.len() == start + response_messages(all_parts.subrange(0, k as int)).len(),
            out@.subrange(0, start as int) == old(out)@,
            forall|i: int|
                0 <= i < response_messages(all_parts.subrange(0, k as int)).len() ==> is_message_json(
                    #[trigger] out@[start + i],
                    response_messages(all_parts.subrange(0, k as int))[i],
                ),
        decreases n - k,
    {
        let ghost pre = all_parts.subrange(0, k as int);
        let ghost out_before = out@;
        assert(all_parts.subrange(0, k + 1).drop_last() =~= pre);
        assert(all_parts.subrange(0, k + 1).last() == all_parts[k as int]);
        let part = rest.remove(0);
        assert(part == all_parts[k as int]);
        match part {
            GeminiPart::Text { text } => {
                texts.append(text.as_str());
            },
            GeminiPart::FunctionCall { function_call } => {
                calls.push(call_json(function_call));
                assert(texts@ + Seq::<char>::empty() =~= texts@);
            },
            GeminiPart::FunctionResponse { function_response } => {
                out.push(tool_result_json(function_response));
                assert(texts@ + Seq::<char>::empty() =~= texts@);
                assert(out@.subrange(0, start as int) =~= out_before.subrange(0, start as int));
            },
            GeminiPart::Other(_) => {
                assert(texts@ + Seq::<char>::empty() =~= texts@);
            },
        }
        assert(rest@ =~= all_parts.subrange(k + 1, n as int));
        k += 1;
    }
    assert(all_parts.subrange(0, n as int) =~= all_parts);
    if !only {
        let ghost out_before = out@;
        let r = role_of(role);
        let mut es: Vec<(String, Json)> = Vec::new();
        es.push(("role".to_owned(), Json::String(r)));
        es.push(("content".to_owned(), Json::String(texts)));
        if calls.len() > 0 {
            es.push(("tool_calls".to_owned(), Json::Array(calls)));
        }
        out.push(Json::Object(es));
        assert(out@.subrange(0, start as int) =~= out_before.subrange(0, start as int));
    }
}

/// Converts Gemini `contents` (and an optional system instruction) to
/// Ollama `/api/chat` messages: a non-empty system instruction becomes a
/// leading `system` message; `model` turns become `assistant` turns; text
/// parts are concatenated; function calls become `tool_calls`; function
/// responses become `tool` messages holding the response's JSON text.
pub fn contents_to_ollama(system: Option<GeminiContent>, contents: Vec<GeminiContent>) -> (r: Vec<Json>)
    ensures
        renders(r@, system_messages(system) + contents_messages(contents@)),
{
    let mut out: Vec<Json> = Vec::new();
    match system {
        Some(sys) => {
            let text = extract_text_parts(&sys.parts);
            if text.as_str().unicode_len() > 0 {
                out.push(message_json("system".to_owned(), text));
            }
        },
        None => {},
    }
    let ghost head = out@;
    assert(renders(head, system_messages(system)));
    let ghost all = contents@;
    let n = contents.len();
    let mut rest = contents;
    let mut i: usize = 0;
    while i < n
        invariant
            n == all.len(),
            i <= n,
            rest@ == all.subrange(i as int, n as int),
            renders(out@, system_messages(system) + contents_messages(all.subrange(0, i as int))),
        decreases n - i,
    {
        let ghost before = out@;
        let ghost plan = system_messages(system) + contents_messages(all.subrange(0, i as int));
        assert(all.subrange(0, i + 1).drop_last() =~= all.subrange(0, i as int));
        assert(all.subrange(0, i + 1).last() == all[i as int]);
        let c = rest.remove(0);
        push_content_messages(&mut out, c);
        let ghost added = content_messages(all[i as int]);
        assert(system_messages(system) + contents_messages(all.subrange(0, i + 1)) =~= plan + added);
        assert forall|j: int| 0 <= j < out@.len() implies is_message_json(
            #[trigger] out@[j],
            (plan + added)[j],
        ) by {
            if j < before.len() {
                assert(out@[j] == out@.subrange(0, before.len() as int)[j]);
                assert(is_message_json(before[j], plan[j]));
            } else {
                let k = j - before.len();
                assert(is_message_json(out@[before.len() + k], added[k]));
                assert((plan + added)[j] == added[k]);
            }
        }
        assert(rest@ =~= all.subrange(i + 1, n as int));
        i += 1;
    }
    assert(all.subrange(0, n as int) =~= all);
    out
}

// ── Tools ────────────────────────────────────────────────────────────────────

/// All function declarations of the tools, in order.
pub open spec fn declarations(tools: Seq<GeminiTool>) -> Seq<GeminiFunctionDeclaration>
    decreases tools.len(),
{
    if tools.len() == 0 {
        Seq::empty()
    } else {
        declarations(tools.drop_last()) + tools.last().function_declarations@
    }
}

/// `x` is the Ollama tool of declaration `d`:
/// `{"type": "function", "function": {"name", "description" (or ""), "parameters" (or {})}}`.
pub open spec fn is_tool_json(x: Json, d: GeminiFunctionDeclaration) -> bool {
    &&& x matches Json::Object(es)
    &&& es@.len() == 2
    &&& str_entry(es@[0], "type"@, "function"@)
    &&& es@[1].0@ == "function"@
    &&& (es@[1].1 matches Json::Object(fs) && fs@.len() == 3 && str_entry(fs@[0], "name"@, d.name@)
        && str_entry(
        fs@[1],
        "description"@,
        match d.description {
            Some(t) => t@,
            None => Seq::empty(),
        },
    ) && fs@[2].0@ == "parameters"@ && match d.parameters {
        Some(p) => fs@[2].1 == p,
        None => fs@[2].1 matches Json::Object(e) && e@.len() == 0,
    })
}

fn tool_json(d: GeminiFunctionDeclaration) -> (r: Json)
    ensures
        is_tool_json(r, d),
{
    let GeminiFunctionDeclaration { name, description, parameters } = d;
    let desc = match description {
        Some(t) => t,
        None => String::new(),
    };
    let params = match parameters {
        Some(p) => p,
        None => Json::Object(Vec::new()),
    };
    let mut fs: Vec<(String, Json)> = Vec::new();
    fs.push(("name".to_owned(), Json::String(name)));
    fs.push(("description".to_owned(), Json::String(desc)));
    fs.push(("parameters".to_owned(), params));
    let mut es: Vec<(String, Json)> = Vec::new();
    es.push(("type".to_owned(), Json::String("function".to_owned())));
    es.push(("function".to_owned(), Json::Object(fs)));
    Json::Object(es)
}

/// Converts Gemini function declarations to Ollama tools; `None` when
/// there are none.
pub fn gemini_tools_to_ollama(tools: Vec<GeminiTool>) -> (r: Option<Json>)
    ensures
        declarations(tools@).len() == 0 ==> r is None,
        declarations(tools@).len() > 0 ==> (r matches Some(Json::Array(xs)) && xs@.len() == declarations(
            tools@,
        ).len() && forall|k: int|
            0 <= k < xs@.len() ==> is_tool_json(#[trigger] xs@[k], declarations(tools@)[k])),
{
    let ghost all = tools@;
    let n = tools.len();
    let mut rest = tools;
    let mut xs: Vec<Json> = Vec::new();
    let mut i: usize = 0;
    while i < n
        invariant
            n == all.len(),
            i <= n,
            rest@ == all.subrange(i as int, n as int),
            xs@.len() == declarations(all.subrange(0, i as int)).len(),
            forall|k: int|
                0 <= k < xs@.len() ==> is_tool_json(#[trigger] xs@[k], declarations(all.subrange(0, i as int))[k]),
        decreases n - i,
    {
        let ghost done = declarations(all.subrange(0, i as int));
        assert(all.subrange(0, i + 1).drop_last() =~= all.subrange(0, i as int));
        let t = rest.remove(0);
        assert(t == all[i as int]);
        let ghost decls = t.function_declarations@;
        let mut ds = t.function_declarations;
        let m = ds.len();
        let mut j: usize = 0;
        while j < m
            invariant
                m == decls.len(),
                j <= m,
                ds@ == decls.subrange(j as int, m as int),
                xs@.len() == done.len() + j,
                forall|k: int| 0 <= k < xs@.len() ==> is_tool_json(#[trigger] xs@[k], (done + decls)[k]),
            decreases m - j,
        {
            let d = ds.remove(0);
            assert(d == decls[j as int]);
            xs.push(tool_json(d));
            assert(ds@ =~= decls.subrange(j + 1, m as int));
            j += 1;
        }
        assert(declarations(all.subrange(0, i + 1)) =~= done + decls);
        assert(rest@ =~= all.subrange(i + 1, n as int));
        i += 1;
    }
    assert(all.subrange(0, n as int) =~= all);
    if xs.len() == 0 {
        None
    } else {
        Some(Json::Array(xs))
    }
}

// ── Dispatch ─────────────────────────────────────────────────────────────────

/// The position of the last `:` in `s`, if any.
pub open spec fn last_colon(s: Seq<char>) -> Option<int>
    decreases s.len(),
{
    if s.len() == 0 {
        None
    } else if s.last() == ':' {
        Some(s.len() - 1)
    } else {
        last_colon(s.drop_last())
    }
}

proof fn lemma_last_colon_bounds(s: Seq<char>)
    ensures
        last_colon(s) matches Some(k) ==> 0 <= k < s.len() && s[k] == ':',
    decreases s.len(),
{
    if s.len() > 0 && s.last() != ':' {
        lemma_last_colon_bounds(s.drop_last());
    }
}

/// Splits `{model}:{action}` at the last `:` (`rsplitn(2, ':')`): without a
/// `:` the whole path is the action and the model is empty.
pub fn split_model_action(path: &str) -> (r: (String, String))
    ensures
        match last_colon(path@) {
            Some(k) => r.0@ == path@.subrange(0, k) && r.1@ == path@.subrange(k + 1, path@.len() as int),
            None => r.0@ == Seq::<char>::empty() && r.1@ == path@,
        },
{
    let n = path.unicode_len();
    let mut i = n;
    proof {
        lemma_last_colon_bounds(path@);
    }
    assert(path@.subrange(0, n as int) =~= path@);
    while i > 0
        invariant
            i <= n,
            n == path@.len(),
            last_colon(path@) == last_colon(path@.subrange(0, i as int)),
        decreases i,
    {
        let ghost pre = path@.subrange(0, i as int);
        assert(pre.drop_last() =~= path@.subrange(0, i - 1));
        if path.get_char(i - 1) == ':' {
            let model = path.substring_char(0, i - 1);
            let action = path.substring_char(i, n);
            return (model.to_owned(), action.to_owned());
        }
        i -= 1;
    }
    assert(path@.subrange(0, 0) =~= Seq::<char>::empty());
    (String::new(), path.to_owned())
}

/// A Gemini-format error answer: HTTP status, `error.code`, `error.status`
/// and `error.message`.
#[derive(Debug, Clone, PartialEq, Eq)]
pub struct GeminiErrorReply {
    pub http_status: u16,
    pub code: u32,
    pub status: String,
    pub message: String,
}

/// Where a Gemini request goes.
#[derive(Debug, Clone, PartialEq, Eq)]
pub enum GeminiDispatch {
    /// `streamGenerateContent` for the model.
    Stream(String),
    /// `generateContent` for the model.
    Generate(String),
    Reject(GeminiErrorReply),
}

/// Message of the answer to tool declarations while function calling is off.
pub const ERR_FUNCTION_CALLING_DISABLED: &'static str = "Gemini function calling is a lab (experimental) feature. Enable it in Settings → Lab Features → Gemini function calling.";

/// `r` rejects with these fields.
pub open spec fn rejects(r: GeminiDispatch, http: u16, status: Seq<char>, message: Seq<char>) -> bool {
    r matches GeminiDispatch::Reject(e) && e.http_status == http && e.code == http as u32 && e.status@ == status
        && e.message@ == message
}

/// Total bytes of the text parts of all contents.
pub open spec fn contents_text_bytes(cs: Seq<GeminiContent>) -> int
    decreases cs.len(),
{
    if cs.len() == 0 {
        0
    } else {
        contents_text_bytes(cs.drop_last()) + parts_text_bytes(cs.last().parts@)
    }
}

/// Total bytes of the texts of text parts.
pub open spec fn parts_text_bytes(parts: Seq<GeminiPart>) -> int
    decreases parts.len(),
{
    if parts.len() == 0 {
        0
    } else {
        parts_text_bytes(parts.drop_last()) + match parts.last() {
            GeminiPart::Text { text } => byte_len(text@) as int,
            _ => 0,
        }
    }
}

proof fn lemma_parts_text_bytes_nonneg(parts: Seq<GeminiPart>)
    ensures
        parts_text_bytes(parts) >= 0,
    decreases parts.len(),
{
    if parts.len() > 0 {
        lemma_parts_text_bytes_nonneg(parts.drop_last());
    }
}

proof fn lemma_contents_text_bytes_nonneg(cs: Seq<GeminiContent>)
    ensures
        contents_text_bytes(cs) >= 0,
    decreases cs.len(),
{
    if cs.len() > 0 {
        lemma_contents_text_bytes_nonneg(cs.drop_last());
        lemma_parts_text_bytes_nonneg(cs.last().parts@);
    }
}

/// The text bytes of the contents, saturating at `usize::MAX`.
pub fn gemini_text_bytes(contents: &Vec<GeminiContent>) -> (r: usize)
    ensures
        r as int == if contents_text_bytes(contents@) <= usize::MAX {
            contents_text_bytes(contents@)
        } else {
            usize::MAX as int
        },
{
    let n = contents.len();
    let mut total: usize = 0;
    let mut i: usize = 0;
    while i < n
        invariant
            n == contents@.len(),
            i <= n,
            total as int == if contents_text_bytes(contents@.subrange(0, i as int)) <= usize::MAX {
                contents_text_bytes(contents@.subrange(0, i as int))
            } else {
                usize::MAX as int
            },
        decreases n - i,
    {
        assert(contents@.subrange(0, i + 1).drop_last() =~= contents@.subrange(0, i as int));
        proof {
            lemma_contents_text_bytes_nonneg(contents@.subrange(0, i as int));
        }
        let parts = &contents[i].parts;
        let m = parts.len();
        let mut sub: usize = 0;
        let mut j: usize = 0;
        while j < m
            invariant
                m == parts@.len(),
                j <= m,
                sub as int == if parts_text_bytes(parts@.subrange(0, j as int)) <= usize::MAX {
                    parts_text_bytes(parts@.subrange(0, j as int))
                } else {
                    usize::MAX as int
                },
            decreases m - j,
        {
            assert(parts@.subrange(0, j + 1).drop_last() =~= parts@.subrange(0, j as int));
            proof {
                lemma_parts_text_bytes_nonneg(parts@.subrange(0, j as int));
            }
            let add: usize = match &parts[j] {
                GeminiPart::Text { text } => text.as_str().len(),
                _ => 0,
            };
            sub = sub.saturating_add(add);
            j += 1;
        }
        assert(parts@.subrange(0, m as int) =~= parts@);
        proof {
            lemma_parts_text_bytes_nonneg(parts@);
        }
        total = total.saturating_add(sub);
        i += 1;
    }
    assert(contents@.subrange(0, n as int) =~= contents@);
    total
}

/// Dispatches a Gemini request for path `{model}:{action}`: tool
/// declarations while function calling is off are `501 UNIMPLEMENTED`; an
/// invalid model name or text over 1 MB is `400 INVALID_ARGUMENT`; an
/// unknown action is `404 NOT_FOUND`.
pub fn gemini_dispatch(path: &str, has_tools: bool, function_calling_enabled: bool, text_bytes: usize) -> (r:
    GeminiDispatch)
    ensures
        has_tools && !function_calling_enabled ==> rejects(r, 501, "UNIMPLEMENTED"@, ERR_FUNCTION_CALLING_DISABLED@),
        !(has_tools && !function_calling_enabled) ==> {
            let model = match last_colon(path@) {
                Some(k) => path@.subrange(0, k),
                None => Seq::empty(),
            };
            let action = match last_colon(path@) {
                Some(k) => path@.subrange(k + 1, path@.len() as int),
                None => path@,
            };
            if !(model.len() > 0 && byte_len(model) <= crate::http::constants::MAX_MODEL_NAME_BYTES) {
                rejects(r, 400, "INVALID_ARGUMENT"@, ERR_MODEL_INVALID@)
            } else if text_bytes > crate::http::constants::MAX_PROMPT_BYTES {
                rejects(r, 400, "INVALID_ARGUMENT"@, ERR_PROMPT_TOO_LARGE@)
            } else if action == "streamGenerateContent"@ {
                r matches GeminiDispatch::Stream(m) && m@ == model
            } else if action == "generateContent"@ {
                r matches GeminiDispatch::Generate(m) && m@ == model
            } else {
                rejects(r, 404, "NOT_FOUND"@, "unknown action: "@ + action)
            }
        },
{
    if has_tools && !function_calling_enabled {
        return GeminiDispatch::Reject(
            GeminiErrorReply {
                http_status: 501,
                code: 501,
                status: "UNIMPLEMENTED".to_owned(),
                message: ERR_FUNCTION_CALLING_DISABLED.to_owned(),
            },
        );
    }
    let (model, action) = split_model_action(path);
    if validate_model_name(model.as_str()).is_err() {
        return GeminiDispatch::Reject(
            GeminiErrorReply {
                http_status: 400,
                code: 400,
                status: "INVALID_ARGUMENT".to_owned(),
                message: ERR_MODEL_INVALID.to_owned(),
            },
        );
    }
    if validate_content_length(text_bytes).is_err() {
        return GeminiDispatch::Reject(
            GeminiErrorReply {
                http_status: 400,
                code: 400,
                status: "INVALID_ARGUMENT".to_owned(),
                message: ERR_PROMPT_TOO_LARGE.to_owned(),
            },
        );
    }
    if str_eq(action.as_str(), "streamGenerateContent") {
        GeminiDispatch::Stream(model)
    } else if str_eq(action.as_str(), "generateContent") {
        GeminiDispatch::Generate(model)
    } else {
        GeminiDispatch::Reject(
            GeminiErrorReply {
                http_status: 404,
                code: 404,
                status: "NOT_FOUND".to_owned(),
                message: concat2("unknown action: ", action.as_str()),
            },
        )
    }
}

} // verus!
