//! Helpers shared by the inference endpoints: the display prompt of a
//! message list, tool-call screening and conversion, and message hashes.

use vstd::prelude::*;
use vstd::string::*;
use vstd::utf8::encode_utf8;

use crate::codec::is_lower_hex;
use crate::domain::services::blake2_hex;
use crate::json::{
    as_str_of, field, field_of, get_field, get_field_of, json_text, str_of, to_json_text, Json,
};
use crate::text::{concat2, decimal, is_alnum, u64_to_decimal};

verus! {

// ── Display prompt ───────────────────────────────────────────────────────────

/// The message has role `user`.
pub open spec fn is_user_message(m: Json) -> bool {
    str_of(field(m, "role"@)) == Some("user"@)
}

/// The content of the last user message, when it is a string; `chat` when
/// there is no user message or its content is not a string.
pub open spec fn last_user_prompt(ms: Seq<Json>) -> Seq<char>
    decreases ms.len(),
{
    if ms.len() == 0 {
        "chat"@
    } else if is_user_message(ms.last()) {
        match str_of(field(ms.last(), "content"@)) {
            Some(c) => c,
            None => "chat"@,
        }
    } else {
        last_user_prompt(ms.drop_last())
    }
}

fn is_user(m: &Json) -> (r: bool)
    ensures
        r == is_user_message(*m),
{
    match as_str_of(get_field(m, "role")) {
        Some(role) => crate::text::str_eq(role, "user"),
        None => false,
    }
}

/// The display prompt of an Ollama-format message list: the string content
/// of the last `user` message, or `chat`.
pub fn extract_last_user_prompt(messages: &Vec<Json>) -> (r: &str)
    ensures
        r@ == last_user_prompt(messages@),
{
    let mut i = messages.len();
    assert(messages@.subrange(0, i as int) =~= messages@);
    while i > 0
        invariant
            i <= messages@.len(),
            last_user_prompt(messages@) == last_user_prompt(messages@.subrange(0, i as int)),
        decreases i,
    {
        let ghost pre = messages@.subrange(0, i as int);
        assert(pre.drop_last() =~= messages@.subrange(0, i - 1));
        assert(pre.last() == messages@[i - 1]);
        let m = &messages[i - 1];
        if is_user(m) {
            return match as_str_of(get_field(m, "content")) {
                Some(c) => c,
                None => "chat",
            };
        }
        i -= 1;
    }
    assert(messages@.subrange(0, 0) =~= Seq::<Json>::empty());
    "chat"
}

// ── Tool calls ───────────────────────────────────────────────────────────────

/// `char::is_alphanumeric`: Unicode alphabetic or numeric.
pub uninterp spec fn unicode_alphanumeric(c: char) -> bool;

/// `char::is_alphanumeric`. ASCII letters and digits are alphanumeric; no
/// other ASCII character is.
#[verifier::external_body]
fn char_is_alphanumeric(c: char) -> (r: bool)
    ensures
        r == unicode_alphanumeric(c),
        is_alnum(c) ==> r,
        (c as u32) < 128 && !is_alnum(c) ==> !r,
{
    c.is_alphanumeric()
}

/// Byte length of the UTF-8 text of `s` (as `str::len` reports it).
pub open spec fn byte_len(s: Seq<char>) -> usize {
    encode_utf8(s).len() as usize
}

/// A character allowed in a tool name.
pub open spec fn tool_name_char(c: char) -> bool {
    unicode_alphanumeric(c) || c == '_' || c == '.' || c == '-' || c == ':'
}

/// An ASCII character allowed in a tool name: a letter, a digit, or one of
/// `_ . - :` (on ASCII input the same test as `tool_name_char`).
pub open spec fn ascii_tool_name_char(c: char) -> bool {
    is_alnum(c) || c == '_' || c == '.' || c == '-' || c == ':'
}

/// Most bytes of a tool name.
pub const MAX_TOOL_NAME_BYTES: usize = 256;

/// Most bytes of the JSON text of a tool call's arguments.
pub const MAX_TOOL_ARGUMENTS_BYTES: usize = 65_536;

/// A tool call from a provider is accepted when it has a `function` whose
/// `name` is a non-empty string of at most 256 bytes made of allowed
/// characters, and whose `arguments`, if present, serialise to at most
/// 64 KiB.
pub open spec fn tool_call_ok(call: Json) -> bool {
    match field(call, "function"@) {
        None => false,
        Some(f) => match str_of(field(f, "name"@)) {
            None => false,
            Some(n) => n.len() > 0 && byte_len(n) <= MAX_TOOL_NAME_BYTES && (forall|i: int|
                0 <= i < n.len() ==> #[trigger] tool_name_char(n[i])) && match field(f, "arguments"@) {
                Some(a) => byte_len(json_text(a)) <= MAX_TOOL_ARGUMENTS_BYTES,
                None => true,
            },
        },
    }
}

fn tool_name_chars_ok(name: &str) -> (r: bool)
    ensures
        r == (forall|i: int| 0 <= i < name@.len() ==> #[trigger] tool_name_char(name@[i])),
        (forall|i: int| 0 <= i < name@.len() ==> #[trigger] ascii_tool_name_char(name@[i])) ==> r,
        r ==> (forall|i: int| 0 <= i < name@.len() && (name@[i] as u32) < 128 ==> #[trigger] ascii_tool_name_char(name@[i])),
{
    let n = name.unicode_len();
    let mut i: usize = 0;
    while i < n
        invariant
            n == name@.len(),
            i <= n,
            forall|j: int| 0 <= j < i ==> #[trigger] tool_name_char(name@[j]),
            forall|j: int| 0 <= j < i && (name@[j] as u32) < 128 ==> #[trigger] ascii_tool_name_char(name@[j]),
            (forall|j: int| 0 <= j < name@.len() ==> #[trigger] ascii_tool_name_char(name@[j])) ==> (forall|j: int|
                0 <= j < i ==> #[trigger] tool_name_char(name@[j])),
        decreases n - i,
    {
        let c = name.get_char(i);
        if !(char_is_alphanumeric(c) || c == '_' || c == '.' || c == '-' || c == ':') {
            assert(!tool_name_char(name@[i as int]));
            assert(!ascii_tool_name_char(name@[i as int]));
            return false;
        }
        i += 1;
    }
    true
}

/// `tool_call_ok` with the ASCII character test: what an ASCII tool name
/// must meet.
pub open spec fn ascii_tool_call_ok(call: Json) -> bool {
    match field(call, "function"@) {
        None => false,
        Some(f) => match str_of(field(f, "name"@)) {
            None => false,
            Some(n) => n.len() > 0 && byte_len(n) <= MAX_TOOL_NAME_BYTES && (forall|i: int|
                0 <= i < n.len() ==> #[trigger] ascii_tool_name_char(n[i])) && match field(f, "arguments"@) {
                Some(a) => byte_len(json_text(a)) <= MAX_TOOL_ARGUMENTS_BYTES,
                None => true,
            },
        },
    }
}

/// Screens a tool call returned by a provider (guards against injected
/// names and oversized arguments). On an ASCII name the character test is
/// the ASCII one: letters, digits and `_ . - :`.
pub fn validate_tool_call(call: &Json) -> (r: bool)
    ensures
        r == tool_call_ok(*call),
        ascii_tool_call_ok(*call) ==> r,
        r && vstd::utf8::is_ascii_chars(call_name(*call)) ==> ascii_tool_call_ok(*call),
{
    let func = match get_field(call, "function") {
        Some(f) => f,
        None => {
            return false;
        },
    };
    let name = match as_str_of(get_field(func, "name")) {
        Some(n) => n,
        None => {
            return false;
        },
    };
    if name.unicode_len() == 0 || name.len() > MAX_TOOL_NAME_BYTES {
        return false;
    }
    if !tool_name_chars_ok(name) {
        return false;
    }
    match get_field(func, "arguments") {
        Some(args) => {
            let text = to_json_text(args);
            text.as_str().len() <= MAX_TOOL_ARGUMENTS_BYTES
        },
        None => true,
    }
}

/// The name of a provider tool call (`function.name`), or empty.
pub open spec fn call_name(c: Json) -> Seq<char> {
    match str_of(field_of(field(c, "function"@), "name"@)) {
        Some(n) => n,
        None => ""@,
    }
}

/// The JSON text of a provider tool call's `function.arguments`, or empty.
pub open spec fn call_arguments(c: Json) -> Seq<char> {
    match field_of(field(c, "function"@), "arguments"@) {
        Some(a) => json_text(a),
        None => ""@,
    }
}

/// `j` is the string `s`.
pub open spec fn is_str(j: Json, s: Seq<char>) -> bool {
    j matches Json::String(t) && t@ == s
}

/// `r` is the OpenAI form of a tool call at position `i` with name `name`
/// and argument text `args`:
/// `{"index": i, "id": "call_<i>", "type": "function", "function": {"name", "arguments"}}`.
pub open spec fn is_openai_tool_call(r: Json, i: nat, name: Seq<char>, args: Seq<char>) -> bool {
    &&& r matches Json::Object(es)
    &&& es@.len() == 4
    &&& es@[0].0@ == "index"@
    &&& (es@[0].1 matches Json::Number(t) && t@ == decimal(i))
    &&& es@[1].0@ == "id"@
    &&& is_str(es@[1].1, "call_"@ + decimal(i))
    &&& es@[2].0@ == "type"@
    &&& is_str(es@[2].1, "function"@)
    &&& es@[3].0@ == "function"@
    &&& (es@[3].1 matches Json::Object(fs) && fs@.len() == 2 && fs@[0].0@ == "name"@ && is_str(
        fs@[0].1,
        name,
    ) && fs@[1].0@ == "arguments"@ && is_str(fs@[1].1, args))
}

/// Converts an Ollama tool call to the OpenAI streaming form at position
/// `i`; the arguments object becomes its JSON text, and missing fields
/// become empty strings.
pub fn convert_tool_call(i: usize, c: &Json) -> (r: Json)
    ensures
        is_openai_tool_call(r, i as nat, call_name(*c), call_arguments(*c)),
{
    let func = get_field(c, "function");
    let ghost f: Option<Json> = match func {
        Some(x) => Some(*x),
        None => None,
    };
    assert(f == field(*c, "function"@));
    proof {
        reveal_strlit("");
    }
    let name = match as_str_of(get_field_of(func, "name")) {
        Some(n) => n.to_owned(),
        None => String::new(),
    };
    let args = match get_field_of(func, "arguments") {
        Some(a) => to_json_text(a),
        None => String::new(),
    };
    let digits = u64_to_decimal(i as u64);
    let id = concat2("call_", digits.as_str());
    let mut inner: Vec<(String, Json)> = Vec::new();
    inner.push(("name".to_owned(), Json::String(name)));
    inner.push(("arguments".to_owned(), Json::String(args)));
    let mut es: Vec<(String, Json)> = Vec::new();
    es.push(("index".to_owned(), Json::Number(digits)));
    es.push(("id".to_owned(), Json::String(id)));
    es.push(("type".to_owned(), Json::String("function".to_owned())));
    es.push(("function".to_owned(), Json::Object(inner)));
    assert(es@.len() == 4);
    assert(es@[0].0@ == "index"@);
    assert(es@[1].1 matches Json::String(t) && t@ == "call_"@ + decimal(i as nat));
    assert(es@[3].1 matches Json::Object(fs) && fs@.len() == 2);
    assert(name@ == call_name(*c));
    assert(args@ == call_arguments(*c));
    Json::Object(es)
}

// ── Message hashes ───────────────────────────────────────────────────────────

/// `serde_json::to_string` of the JSON array of `items`.
pub uninterp spec fn json_array_text(items: Seq<Json>) -> Seq<char>;

/// `serde_json::to_string` of a slice of values (a JSON array).
#[verifier::external_body]
fn array_json_text(items: &[Json]) -> (r: String)
    ensures
        r@ == json_array_text(items@),
{
    let values: Vec<serde_json::Value> = items.iter().map(crate::json::to_serde).collect();
    serde_json::to_string(&values).unwrap_or_default()
}

/// Hash of a message list: hex BLAKE2b-256 of its JSON text.
pub open spec fn messages_hash(items: Seq<Json>) -> Seq<char> {
    blake2_hex(encode_utf8(json_array_text(items)))
}

/// Hashes of a message list and of its prefix without the last message
/// (empty for a single message); nothing for an empty list.
pub open spec fn message_hashes_of(items: Seq<Json>) -> Option<(Seq<char>, Seq<char>)> {
    if items.len() == 0 {
        None
    } else {
        Some(
            (
                messages_hash(items),
                if items.len() <= 1 {
                    Seq::empty()
                } else {
                    messages_hash(items.drop_last())
                },
            ),
        )
    }
}

/// Message hashes of a JSON value: nothing unless it is a non-empty array.
pub open spec fn message_hashes(messages: Json) -> Option<(Seq<char>, Seq<char>)> {
    match messages {
        Json::Array(items) => message_hashes_of(items@),
        _ => None,
    }
}

fn hash_of_json_text(text: &str) -> (r: String)
    ensures
        r@ == blake2_hex(encode_utf8(text@)),
        r@.len() == 64,
        is_lower_hex(r@),
{
    crate::domain::services::hash_api_key(text)
}

/// Computes the full and prefix hashes of a messages array, which link a
/// turn to the conversation it continues.
pub fn compute_message_hashes(messages: &Json) -> (r: Option<(String, String)>)
    ensures
        match message_hashes(*messages) {
            Some((h, p)) => r matches Some((a, b)) && a@ == h && b@ == p,
            None => r is None,
        },
        r matches Some((a, b)) ==> a@.len() == 64 && is_lower_hex(a@) && (b@.len() == 0 || (b@.len() == 64
            && is_lower_hex(b@))),
{
    match messages {
        Json::Array(items) => {
            let n = items.len();
            if n == 0 {
                return None;
            }
            let full_text = array_json_text(items.as_slice());
            let full = hash_of_json_text(full_text.as_str());
            let prefix = if n <= 1 {
                String::new()
            } else {
                let (head, _) = items.as_slice().split_at(n - 1);
                assert(head@ =~= items@.drop_last());
                let head_text = array_json_text(head);
                hash_of_json_text(head_text.as_str())
            };
            Some((full, prefix))
        },
        _ => None,
    }
}

/// The prefix hash of a conversation is the full hash of the conversation
/// without its last message: a turn links to the turn before it.
pub proof fn lemma_prefix_hash_links_previous_turn(items: Seq<Json>)
    requires
        items.len() >= 2,
    ensures
        message_hashes_of(items) is Some,
        message_hashes_of(items.drop_last()) is Some,
        message_hashes_of(items) matches Some(whole) && message_hashes_of(items.drop_last()) matches Some(
            earlier,
        ) && whole.1 == earlier.0,
{
}

} // verus!
