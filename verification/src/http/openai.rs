//! OpenAI-compatible request bodies: message content normalisation, image
//! extraction and embedding inputs.

use vstd::prelude::*;
use vstd::string::*;

use crate::http::datetime::{build_current_datetime_system_text, clock_reading, datetime_directive_at};
use crate::http::inference::{call_name, is_str};
use crate::json::{as_str_of, field, field_of, get_field, get_field_of, json_parsed, parse_json, str_of, Json};
use crate::text::{find_from, has_prefix, occurs_at, owned, starts_with, str_eq};

verus! {

/// `image_url` object of an OpenAI vision content part.
#[derive(Debug, Clone, PartialEq, Eq)]
pub struct ImageUrl {
    pub url: String,
}

/// One part of an array-form message content.
#[derive(Debug, Clone, PartialEq, Eq)]
pub struct ContentPart {
    pub part_type: String,
    pub text: Option<String>,
    pub image_url: Option<ImageUrl>,
}

/// OpenAI message content: a plain string or an array of content parts.
#[derive(Debug, Clone, PartialEq, Eq)]
pub enum MessageContent {
    Text(String),
    Parts(Vec<ContentPart>),
}

/// The texts of the `"text"` parts that carry a text, in order.
pub open spec fn part_texts(parts: Seq<ContentPart>) -> Seq<Seq<char>>
    decreases parts.len(),
{
    if parts.len() == 0 {
        Seq::empty()
    } else {
        let rest = part_texts(parts.drop_last());
        let p = parts.last();
        if p.part_type@ == "text"@ && p.text is Some {
            rest.push(p.text->0@)
        } else {
            rest
        }
    }
}

/// The strings of `items` joined with `sep` between consecutive items.
pub open spec fn join(items: Seq<Seq<char>>, sep: Seq<char>) -> Seq<char>
    decreases items.len(),
{
    if items.len() == 0 {
        Seq::empty()
    } else if items.len() == 1 {
        items[0]
    } else {
        join(items.drop_last(), sep) + sep + items.last()
    }
}

/// The base64 payload carried by an image URL: what follows `;base64,` in a
/// data URI, nothing for another data URI, the URL itself otherwise.
pub open spec fn image_payload(url: Seq<char>) -> Option<Seq<char>> {
    if exists|i: int| occurs_at(url, ";base64,"@, i) {
        let i = choose|i: int| occurs_at(url, ";base64,"@, i) && forall|j: int| 0 <= j < i ==> !occurs_at(url, ";base64,"@, j);
        Some(url.subrange(i + 8, url.len() as int))
    } else if has_prefix(url, "data:"@) {
        None
    } else {
        Some(url)
    }
}

/// The image payloads of the `"image_url"` parts, in order.
pub open spec fn part_images(parts: Seq<ContentPart>) -> Seq<Seq<char>>
    decreases parts.len(),
{
    if parts.len() == 0 {
        Seq::empty()
    } else {
        let rest = part_images(parts.drop_last());
        let p = parts.last();
        if p.part_type@ == "image_url"@ && p.image_url is Some && image_payload(p.image_url->0.url@) is Some {
            rest.push(image_payload(p.image_url->0.url@)->0)
        } else {
            rest
        }
    }
}

/// The first occurrence of `pat` at or after position 0 is unique.
proof fn lemma_first_occurrence_unique(s: Seq<char>, p: Seq<char>, i: int, k: int)
    requires
        occurs_at(s, p, i),
        forall|j: int| 0 <= j < i ==> !occurs_at(s, p, j),
        occurs_at(s, p, k),
        forall|j: int| 0 <= j < k ==> !occurs_at(s, p, j),
    ensures
        i == k,
{
    if i < k {
        assert(!occurs_at(s, p, i));
    } else if k < i {
        assert(!occurs_at(s, p, k));
    }
}

impl MessageContent {
    /// The plain-text form of the content: the string itself, or the texts of
    /// the text parts joined with newlines.
    pub open spec fn text_of(&self) -> Seq<char> {
        match self {
            MessageContent::Text(s) => s@,
            MessageContent::Parts(parts) => join(part_texts(parts@), "\n"@),
        }
    }

    /// The image payloads of the content (none for plain text).
    pub open spec fn images_of(&self) -> Seq<Seq<char>> {
        match self {
            MessageContent::Text(_) => Seq::empty(),
            MessageContent::Parts(parts) => part_images(parts@),
        }
    }

    pub fn into_string(self) -> (r: String)
        ensures
            r@ == self.text_of(),
    {
        match self {
            MessageContent::Text(s) => s,
            MessageContent::Parts(parts) => {
                let mut r = String::new();
                let mut any = false;
                let n = parts.len();
                let mut i: usize = 0;
                while i < n
                    invariant
                        n == parts@.len(),
                        i <= n,
                        any == (part_texts(parts@.subrange(0, i as int)).len() > 0),
                        r@ == join(part_texts(parts@.subrange(0, i as int)), "\n"@),
                    decreases n - i,
                {
                    let p = &parts[i];
                    let ghost prev = part_texts(parts@.subrange(0, i as int));
                    assert(parts@.subrange(0, i + 1).drop_last() =~= parts@.subrange(0, i as int));
                    assert(parts@.subrange(0, i + 1).last() == parts@[i as int]);
                    if str_eq(p.part_type.as_str(), "text") {
                        match &p.text {
                            Some(t) => {
                                assert(prev.push(t@).drop_last() =~= prev);
                                if any {
                                    r.append("\n");
                                }
                                r.append(t.as_str());
                                any = true;
                            },
                            None => {},
                        }
                    }
                    i += 1;
                }
                assert(parts@.subrange(0, n as int) =~= parts@);
                r
            },
        }
    }

    /// The text of the content, as `into_string` gives it, without
    /// consuming the content.
    pub fn text(&self) -> (r: String)
        ensures
            r@ == self.text_of(),
    {
        match self {
            MessageContent::Text(s) => owned(s.as_str()),
            MessageContent::Parts(parts) => {
                let mut r = String::new();
                let mut any = false;
                let n = parts.len();
                let mut i: usize = 0;
                while i < n
                    invariant
                        n == parts@.len(),
                        i <= n,
                        any == (part_texts(parts@.subrange(0, i as int)).len() > 0),
                        r@ == join(part_texts(parts@.subrange(0, i as int)), "\n"@),
                    decreases n - i,
                {
                    let p = &parts[i];
                    let ghost prev = part_texts(parts@.subrange(0, i as int));
                    assert(parts@.subrange(0, i + 1).drop_last() =~= parts@.subrange(0, i as int));
                    assert(parts@.subrange(0, i + 1).last() == parts@[i as int]);
                    if str_eq(p.part_type.as_str(), "text") {
                        match &p.text {
                            Some(t) => {
                                assert(prev.push(t@).drop_last() =~= prev);
                                if any {
                                    r.append("\n");
                                }
                                r.append(t.as_str());
                                any = true;
                            },
                            None => {},
                        }
                    }
                    i += 1;
                }
                assert(parts@.subrange(0, n as int) =~= parts@);
                r
            },
        }
    }

    /// Base64 image data of the `image_url` parts, with any
    /// `data:image/...;base64,` prefix stripped.
    pub fn extract_images(&self) -> (r: Vec<String>)
        ensures
            r@.len() == self.images_of().len(),
            forall|k: int| 0 <= k < r@.len() ==> r@[k]@ == self.images_of()[k],
    {
        match self {
            MessageContent::Text(_) => Vec::new(),
            MessageContent::Parts(parts) => {
                let mut out: Vec<String> = Vec::new();
                let n = parts.len();
                let mut i: usize = 0;
                while i < n
                    invariant
                        n == parts@.len(),
                        i <= n,
                        out@.len() == part_images(parts@.subrange(0, i as int)).len(),
                        forall|k: int| 0 <= k < out@.len() ==> out@[k]@ == part_images(parts@.subrange(0, i as int))[k],
                    decreases n - i,
                {
                    let p = &parts[i];
                    assert(parts@.subrange(0, i + 1).drop_last() =~= parts@.subrange(0, i as int));
                    if str_eq(p.part_type.as_str(), "image_url") {
                        match &p.image_url {
                            Some(iu) => {
                                match image_payload_exec(iu.url.as_str()) {
                                    Some(img) => {
                                        out.push(img);
                                    },
                                    None => {},
                                }
                            },
                            None => {},
                        }
                    }
                    i += 1;
                }
                assert(parts@.subrange(0, n as int) =~= parts@);
                out
            },
        }
    }
}

/// Extracts the base64 payload of an image URL.
pub fn image_payload_exec(url: &str) -> (r: Option<String>)
    ensures
        match r {
            Some(s) => image_payload(url@) == Some(s@),
            None => image_payload(url@) is None,
        },
{
    match find_from(url, ";base64,", 0) {
        Some(i) => {
            let n = url.unicode_len();
            proof {
                reveal_strlit(";base64,");
            }
            assert(i + 8 <= n);
            let s = url.substring_char(i + 8, n);
            proof {
                let k = choose|k: int| occurs_at(url@, ";base64,"@, k) && forall|j: int| 0 <= j < k ==> !occurs_at(url@, ";base64,"@, j);
                assert(occurs_at(url@, ";base64,"@, k) && forall|j: int| 0 <= j < k ==> !occurs_at(url@, ";base64,"@, j)) by {
                    assert(occurs_at(url@, ";base64,"@, i as int) && forall|j: int| 0 <= j < i ==> !occurs_at(url@, ";base64,"@, j));
                }
                lemma_first_occurrence_unique(url@, ";base64,"@, i as int, k);
            }
            Some(owned(s))
        },
        None => {
            if starts_with(url, "data:") {
                None
            } else {
                Some(owned(url))
            }
        },
    }
}

/// Embedding input: one string or a list of strings.
#[derive(Debug, Clone, PartialEq, Eq)]
pub enum EmbeddingInput {
    Single(String),
    Multiple(Vec<String>),
}

impl EmbeddingInput {
    /// The inputs as a list (a single string becomes a one-element list).
    pub fn into_strings(self) -> (r: Vec<String>)
        ensures
            match self {
                EmbeddingInput::Single(s) => r@ == seq![s],
                EmbeddingInput::Multiple(v) => r@ == v@,
            },
    {
        match self {
            EmbeddingInput::Single(s) => {
                let mut v = Vec::new();
                v.push(s);
                v
            },
            EmbeddingInput::Multiple(v) => v,
        }
    }
}

// ── Chat messages ────────────────────────────────────────────────────────────

/// One message of an OpenAI chat request.
#[derive(Debug)]
pub struct ChatMessage {
    pub role: String,
    /// Absent for assistant messages that only carry tool calls.
    pub content: Option<MessageContent>,
    /// Tool calls requested by the assistant (OpenAI format).
    pub tool_calls: Option<Json>,
    /// Correlation id of a tool-result message.
    pub tool_call_id: Option<String>,
    /// Tool name of a tool-result message.
    pub name: Option<String>,
}

/// The plain-text content of a message (empty when absent).
pub open spec fn content_text(content: Option<MessageContent>) -> Seq<char> {
    match content {
        Some(c) => c.text_of(),
        None => Seq::empty(),
    }
}

/// The arguments object an Ollama tool call gets for an OpenAI one: the
/// JSON that its `function.arguments` string holds, when it parses.
pub open spec fn parsed_arguments(c: Json) -> Option<Json> {
    match str_of(field_of(field(c, "function"@), "arguments"@)) {
        Some(t) => json_parsed(t),
        None => None,
    }
}

/// `x` is the Ollama form of OpenAI tool call `c`:
/// `{"function": {"name": <name or "">, "arguments": <parsed arguments or {}>}}`.
pub open spec fn is_ollama_tool_call(x: Json, c: Json) -> bool {
    &&& x matches Json::Object(es)
    &&& es@.len() == 1
    &&& es@[0].0@ == "function"@
    &&& (es@[0].1 matches Json::Object(fs) && fs@.len() == 2 && fs@[0].0@ == "name"@ && is_str(
        fs@[0].1,
        call_name(c),
    ) && fs@[1].0@ == "arguments"@ && match parsed_arguments(c) {
        Some(v) => fs@[1].1 == v,
        None => fs@[1].1 matches Json::Object(e) && e@.len() == 0,
    })
}

/// `x` is the string value `s`.
pub open spec fn entry_is_str(e: (String, Json), key: Seq<char>, s: Seq<char>) -> bool {
    e.0@ == key && is_str(e.1, s)
}

/// `e` is the `tool_calls` entry holding the Ollama form of `calls`.
pub open spec fn converted_calls(e: (String, Json), calls: Seq<Json>) -> bool {
    &&& e.0@ == "tool_calls"@
    &&& (e.1 matches Json::Array(xs) && xs@.len() == calls.len() && forall|k: int|
        0 <= k < calls.len() ==> is_ollama_tool_call(#[trigger] xs@[k], calls[k]))
}

/// `r` is the Ollama `/api/chat` form of message `m`: `role`, `content`
/// (the normalised text), then `name` when present, `tool_calls` (each call
/// converted) when the tool calls are an array, and `tool_call_id` when
/// present, in that order.
pub open spec fn is_ollama_message(r: Json, m: ChatMessage) -> bool {
    let has_calls = m.tool_calls matches Some(Json::Array(_));
    let i_tools: int = if m.name is Some { 3 } else { 2 };
    let i_id: int = if has_calls { i_tools + 1 } else { i_tools };
    let n: int = if m.tool_call_id is Some { i_id + 1 } else { i_id };
    &&& r matches Json::Object(es)
    &&& es@.len() == n
    &&& entry_is_str(es@[0], "role"@, m.role@)
    &&& entry_is_str(es@[1], "content"@, content_text(m.content))
    &&& (m.name matches Some(nm) ==> entry_is_str(es@[2], "name"@, nm@))
    &&& (m.tool_calls matches Some(Json::Array(calls)) ==> converted_calls(es@[i_tools], calls@))
    &&& (m.tool_call_id matches Some(id) ==> entry_is_str(es@[i_id], "tool_call_id"@, id@))
}

fn ollama_tool_call(c: &Json) -> (r: Json)
    ensures
        is_ollama_tool_call(r, *c),
{
    let func = get_field(c, "function");
    let ghost f: Option<Json> = match func {
        Some(x) => Some(*x),
        None => None,
    };
    assert(f == field(*c, "function"@));
    proof {
        reveal_strlit("");
    }
    let name = match as_str_of(get_field_of(func, "name")) {
        Some(n) => n.to_owned(),
        None => String::new(),
    };
    let args = match as_str_of(get_field_of(func, "arguments")) {
        Some(t) => match parse_json(t) {
            Some(v) => v,
            None => Json::Object(Vec::new()),
        },
        None => Json::Object(Vec::new()),
    };
    assert(match parsed_arguments(*c) {
        Some(v) => args == v,
        None => args matches Json::Object(e) && e@.len() == 0,
    });
    assert(name@ == call_name(*c));
    let mut fs: Vec<(String, Json)> = Vec::new();
    fs.push(("name".to_owned(), Json::String(name)));
    fs.push(("arguments".to_owned(), args));
    let mut es: Vec<(String, Json)> = Vec::new();
    es.push(("function".to_owned(), Json::Object(fs)));
    Json::Object(es)
}

impl ChatMessage {
    /// A system message with text content.
    pub fn new_system(text: String) -> (r: ChatMessage)
        ensures
            r.role@ == "system"@,
            r.content == Some(MessageContent::Text(text)),
            r.tool_calls is None,
            r.tool_call_id is None,
            r.name is None,
    {
        ChatMessage {
            role: "system".to_owned(),
            content: Some(MessageContent::Text(text)),
            tool_calls: None,
            tool_call_id: None,
            name: None,
        }
    }

    /// The message's role.
    pub fn role(&self) -> (r: &str)
        ensures
            r@ == self.role@,
    {
        self.role.as_str()
    }

    /// The content as plain text (empty when absent).
    pub fn content_str(self) -> (r: String)
        ensures
            r@ == content_text(self.content),
    {
        match self.content {
            Some(c) => c.into_string(),
            None => String::new(),
        }
    }

    /// Converts the message to Ollama `/api/chat` form. OpenAI tool-call
    /// arguments are a JSON-encoded string; Ollama wants the object, so the
    /// string is parsed (an unparsable or missing one becomes `{}`).
    pub fn into_ollama_value(self) -> (r: Json)
        ensures
            is_ollama_message(r, self),
    {
        let ghost m = self;
        let ChatMessage { role, content, tool_calls, tool_call_id, name } = self;
        let text = match content {
            Some(c) => c.into_string(),
            None => String::new(),
        };
        let mut es: Vec<(String, Json)> = Vec::new();
        es.push(("role".to_owned(), Json::String(role)));
        es.push(("content".to_owned(), Json::String(text)));
        match name {
            Some(nm) => {
                es.push(("name".to_owned(), Json::String(nm)));
            },
            None => {},
        }
        let ghost before_tools = es@;
        match &tool_calls {
            Some(Json::Array(calls)) => {
                let mut xs: Vec<Json> = Vec::new();
                let n = calls.len();
                let mut k: usize = 0;
                while k < n
                    invariant
                        n == calls@.len(),
                        k <= n,
                        xs@.len() == k,
                        forall|j: int| 0 <= j < k ==> is_ollama_tool_call(#[trigger] xs@[j], calls@[j]),
                    decreases n - k,
                {
                    xs.push(ollama_tool_call(&calls[k]));
                    k += 1;
                }
                es.push(("tool_calls".to_owned(), Json::Array(xs)));
            },
            _ => {},
        }
        match tool_call_id {
            Some(id) => {
                es.push(("tool_call_id".to_owned(), Json::String(id)));
            },
            None => {},
        }
        Json::Object(es)
    }
}

/// The first message is a system message whose text already starts with
/// `Current date` (a date line injected earlier).
pub open spec fn has_date_line(ms: Seq<ChatMessage>) -> bool {
    &&& ms.len() > 0
    &&& ms[0].role@ == "system"@
    &&& has_prefix(content_text(ms[0].content), "Current date"@)
}

/// Prepends a system message carrying the current date directive; the
/// caller's own system messages are left as they are. When the first
/// message is already a system message starting with `Current date`, the
/// messages are left unchanged, so a retried request gets no second date
/// line.
pub fn inject_current_datetime(messages: &mut Vec<ChatMessage>)
    ensures
        has_date_line(old(messages)@) ==> final(messages)@ == old(messages)@,
        !has_date_line(old(messages)@) ==> {
            &&& final(messages)@.len() == old(messages)@.len() + 1
            &&& final(messages)@.subrange(1, final(messages)@.len() as int) == old(messages)@
            &&& final(messages)@[0].role@ == "system"@
            &&& final(messages)@[0].tool_calls is None
            &&& final(messages)@[0].tool_call_id is None
            &&& final(messages)@[0].name is None
            &&& final(messages)@[0].content matches Some(MessageContent::Text(t)) && exists|secs: i64|
                clock_reading(secs) && t@ == #[trigger] datetime_directive_at(secs)
        },
{
    if messages.len() > 0 && str_eq(messages[0].role.as_str(), "system") {
        let first = match &messages[0].content {
            Some(c) => c.text(),
            None => String::new(),
        };
        if starts_with(first.as_str(), "Current date") {
            return;
        }
    }
    let text = build_current_datetime_system_text();
    messages.insert(0, ChatMessage::new_system(text));
    assert(messages@.subrange(1, messages@.len() as int) =~= old(messages)@);
}

} // verus!
