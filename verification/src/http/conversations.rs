//! Conversation context of an OpenAI chat: the earlier turns put in front of
//! the request's messages, whose store the conversation is read from, and
//! the title a new conversation gets.

use vstd::prelude::*;
use vstd::string::*;

use crate::http::openai::{ChatMessage, ContentPart, MessageContent};
use crate::text::{has_prefix, owned, starts_with, trim, trim_str};

verus! {

/// One stored turn of a conversation: the user's prompt and the answer,
/// if one was recorded.
#[derive(Debug, Clone, PartialEq, Eq)]
pub struct StoredTurn {
    pub prompt: String,
    pub result: Option<String>,
}

/// `m` is a plain-text message from `role` with text `t`.
pub open spec fn is_text_message(m: ChatMessage, role: Seq<char>, t: Seq<char>) -> bool {
    &&& m.role@ == role
    &&& (m.content matches Some(MessageContent::Text(x)) && x@ == t)
    &&& m.tool_calls is None
    &&& m.tool_call_id is None
    &&& m.name is None
}

/// The messages of stored turns, in order: each prompt as a user message,
/// followed by its answer as an assistant message when there is one.
pub open spec fn turn_messages(turns: Seq<StoredTurn>) -> Seq<(Seq<char>, Seq<char>)>
    decreases turns.len(),
{
    if turns.len() == 0 {
        Seq::empty()
    } else {
        let t = turns.last();
        let rest = turn_messages(turns.drop_last()).push(("user"@, t.prompt@));
        match t.result {
            Some(r) => rest.push(("assistant"@, r@)),
            None => rest,
        }
    }
}

fn text_message(role: &str, text: &str) -> (r: ChatMessage)
    ensures
        is_text_message(r, role@, text@),
{
    ChatMessage {
        role: owned(role),
        content: Some(MessageContent::Text(owned(text))),
        tool_calls: None,
        tool_call_id: None,
        name: None,
    }
}

/// Puts the messages of the stored turns in front of the request's
/// messages.
pub fn prepend_history(turns: &Vec<StoredTurn>, messages: Vec<ChatMessage>) -> (r: Vec<ChatMessage>)
    ensures
        ({
            let h = turn_messages(turns@);
            &&& r@.len() == h.len() + messages@.len()
            &&& forall|k: int| 0 <= k < h.len() ==> is_text_message(#[trigger] r@[k], h[k].0, h[k].1)
            &&& r@.subrange(h.len() as int, r@.len() as int) == messages@
        }),
{
    let mut out: Vec<ChatMessage> = Vec::new();
    let n = turns.len();
    let mut i: usize = 0;
    while i < n
        invariant
            n == turns@.len(),
            i <= n,
            out@.len() == turn_messages(turns@.subrange(0, i as int)).len(),
            forall|k: int|
                0 <= k < out@.len() ==> is_text_message(
                    #[trigger] out@[k],
                    turn_messages(turns@.subrange(0, i as int))[k].0,
                    turn_messages(turns@.subrange(0, i as int))[k].1,
                ),
        decreases n - i,
    {
        let ghost pre = turn_messages(turns@.subrange(0, i as int));
        assert(turns@.subrange(0, i + 1).drop_last() =~= turns@.subrange(0, i as int));
        assert(turns@.subrange(0, i + 1).last() == turns@[i as int]);
        let t = &turns[i];
        out.push(text_message("user", t.prompt.as_str()));
        let ghost mid = pre.push(("user"@, t.prompt@));
        assert forall|k: int| 0 <= k < out@.len() implies is_text_message(#[trigger] out@[k], mid[k].0, mid[k].1) by {
            if k < pre.len() {
                assert(mid[k] == pre[k]);
            }
        }
        match &t.result {
            Some(res) => {
                out.push(text_message("assistant", res.as_str()));
                let ghost post = mid.push(("assistant"@, res@));
                assert forall|k: int| 0 <= k < out@.len() implies is_text_message(#[trigger] out@[k], post[k].0, post[k].1) by {
                    if k < mid.len() {
                        assert(post[k] == mid[k]);
                    }
                }
            },
            None => {},
        }
        i += 1;
    }
    assert(turns@.subrange(0, n as int) =~= turns@);
    let ghost h_len = out@.len();
    let ghost before = out@;
    let mut rest = messages;
    out.append(&mut rest);
    assert(out@.subrange(h_len as int, out@.len() as int) =~= messages@);
    assert forall|k: int| 0 <= k < h_len implies #[trigger] out@[k] == before[k] by {}
    out
}

/// Whose store a conversation is read from: the caller's account, else its
/// API key, else the conversation id itself.
pub fn conversation_owner(account_id: Option<u128>, api_key_id: Option<u128>, conversation: u128) -> (r: u128)
    ensures
        r == match account_id {
            Some(a) => a,
            None => match api_key_id {
                Some(k) => k,
                None => conversation,
            },
        },
{
    match account_id {
        Some(a) => a,
        None => match api_key_id {
            Some(k) => k,
            None => conversation,
        },
    }
}

/// The marker that turns off model thinking, removed from titles.
pub const NO_THINK: &'static str = "/no_think";

/// `s` with every leading `/no_think` removed (`trim_start_matches`).
pub open spec fn strip_no_think(s: Seq<char>) -> Seq<char>
    decreases s.len(),
{
    if s.len() >= 9 && has_prefix(s, "/no_think"@) {
        strip_no_think(s.subrange(9, s.len() as int))
    } else {
        s
    }
}

/// At most the first `n` characters of `s`.
pub open spec fn first_chars(s: Seq<char>, n: nat) -> Seq<char> {
    if s.len() <= n {
        s
    } else {
        s.subrange(0, n as int)
    }
}

/// The title text of a message content: a plain text gives its first 10
/// characters, content parts the first 50 characters of the first part that
/// carries a text (empty without one), after removing leading `/no_think`
/// markers and surrounding whitespace.
pub open spec fn content_title(c: MessageContent) -> Seq<char> {
    match c {
        MessageContent::Text(t) => first_chars(trim(strip_no_think(t@)), 10),
        MessageContent::Parts(ps) => first_chars(trim(strip_no_think(first_part_text(ps@))), 50),
    }
}

/// The text of the first part that carries one; empty without one.
pub open spec fn first_part_text(ps: Seq<ContentPart>) -> Seq<char>
    decreases ps.len(),
{
    if ps.len() == 0 {
        Seq::empty()
    } else {
        match ps[0].text {
            Some(t) => t@,
            None => first_part_text(ps.drop_first()),
        }
    }
}

/// Position of the first user message.
pub open spec fn first_user(ms: Seq<ChatMessage>) -> Option<int> {
    if exists|i: int| 0 <= i < ms.len() && ms[i].role@ == "user"@ {
        Some(choose|i: int| 0 <= i < ms.len() && ms[i].role@ == "user"@ && forall|k: int| 0 <= k < i ==> ms[k].role@ != "user"@)
    } else {
        None
    }
}

fn strip_no_think_str(s: &str) -> (r: &str)
    ensures
        r@ == strip_no_think(s@),
{
    let mut cur = s;
    proof {
        reveal_strlit("/no_think");
    }
    while cur.unicode_len() >= 9 && starts_with(cur, NO_THINK)
        invariant
            strip_no_think(cur@) == strip_no_think(s@),
        decreases cur@.len(),
    {
        let n = cur.unicode_len();
        cur = cur.substring_char(9, n);
    }
    cur
}

fn take_chars(s: &str, n: usize) -> (r: &str)
    ensures
        r@ == first_chars(s@, n as nat),
{
    let len = s.unicode_len();
    if len <= n {
        s
    } else {
        s.substring_char(0, n)
    }
}

fn first_part_text_exec(ps: &Vec<ContentPart>) -> (r: &str)
    ensures
        r@ == first_part_text(ps@),
{
    let n = ps.len();
    let mut i: usize = 0;
    proof {
        reveal_strlit("");
    }
    assert(ps@.subrange(0, n as int) =~= ps@);
    while i < n
        invariant
            n == ps@.len(),
            i <= n,
            first_part_text(ps@) == first_part_text(ps@.subrange(i as int, n as int)),
        decreases n - i,
    {
        let ghost rest = ps@.subrange(i as int, n as int);
        assert(rest[0] == ps@[i as int]);
        assert(rest.drop_first() =~= ps@.subrange(i + 1, n as int));
        match &ps[i].text {
            Some(t) => {
                return t.as_str();
            },
            None => {},
        }
        i += 1;
    }
    assert(ps@.subrange(n as int, n as int).len() == 0);
    ""
}

/// The title of a new conversation: taken from the first user message that
/// has content; none when the first user message has none or there is no
/// user message.
pub fn conversation_title(messages: &Vec<ChatMessage>) -> (r: Option<String>)
    ensures
        match first_user(messages@) {
            Some(i) => match messages@[i].content {
                Some(c) => r matches Some(t) && t@ == content_title(c),
                None => r is None,
            },
            None => r is None,
        },
{
    let n = messages.len();
    let mut i: usize = 0;
    proof {
        reveal_strlit("user");
    }
    while i < n
        invariant
            n == messages@.len(),
            i <= n,
            forall|k: int| 0 <= k < i ==> messages@[k].role@ != "user"@,
        decreases n - i,
    {
        if crate::text::str_eq(messages[i].role.as_str(), "user") {
            proof {
                let j = choose|j: int| 0 <= j < messages@.len() && messages@[j].role@ == "user"@ && forall|k: int|
                    0 <= k < j ==> messages@[k].role@ != "user"@;
                assert(messages@[i as int].role@ == "user"@);
                if j < i {
                    assert(messages@[j].role@ != "user"@);
                }
                if j > i {
                    assert(messages@[i as int].role@ != "user"@);
                }
                assert(j == i);
            }
            return match &messages[i].content {
                Some(MessageContent::Text(t)) => {
                    let stripped = strip_no_think_str(t.as_str());
                    Some(owned(take_chars(trim_str(stripped), 10)))
                },
                Some(MessageContent::Parts(ps)) => {
                    let first = first_part_text_exec(ps);
                    let stripped = strip_no_think_str(first);
                    Some(owned(take_chars(trim_str(stripped), 50)))
                },
                None => None,
            };
        }
        i += 1;
    }
    None
}

} // verus!
