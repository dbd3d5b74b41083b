//! JSON values as the request-shaping logic reads and builds them.
//!
//! `Json` mirrors `serde_json::Value`, with numbers kept as their JSON text.
//! Objects converted from `serde_json` have distinct keys; lookups take the
//! first entry with the key.

use vstd::prelude::*;
use vstd::string::*;
use vstd::pervasive::VecAdditionalExecFns;

use crate::text::{is_digit, str_eq};

verus! {

/// `serde_json::Value`, held opaquely where a value passes through.
#[verifier::external_type_specification]
#[verifier::external_body]
pub struct ExJsonValue(serde_json::Value);

/// A JSON value.
#[derive(Debug)]
pub enum Json {
    Null,
    Bool(bool),
    /// A number, as its JSON text.
    Number(String),
    String(String),
    Array(Vec<Json>),
    Object(Vec<(String, Json)>),
}

/// The value of the first entry with key `key`.
pub open spec fn entry_value(entries: Seq<(String, Json)>, key: Seq<char>) -> Option<Json>
    decreases entries.len(),
{
    if entries.len() == 0 {
        None
    } else if entries[0].0@ == key {
        Some(entries[0].1)
    } else {
        entry_value(entries.drop_first(), key)
    }
}

/// Field `key` of an object (`Value::get`); nothing for other values.
pub open spec fn field(j: Json, key: Seq<char>) -> Option<Json> {
    match j {
        Json::Object(entries) => entry_value(entries@, key),
        _ => None,
    }
}

/// Field `key` of an optional value.
pub open spec fn field_of(j: Option<Json>, key: Seq<char>) -> Option<Json> {
    match j {
        Some(v) => field(v, key),
        None => None,
    }
}

/// The text of a string value (`Value::as_str`).
pub open spec fn str_of(j: Option<Json>) -> Option<Seq<char>> {
    match j {
        Some(Json::String(s)) => Some(s@),
        _ => None,
    }
}

/// `serde_json::to_string` of the value that `j` stands for.
pub uninterp spec fn json_text(j: Json) -> Seq<char>;

/// `serde_json::from_str::<Value>` of `text`: the value read, or `None`
/// where the text is rejected.
pub uninterp spec fn json_parsed(text: Seq<char>) -> Option<Json>;

/// Looks up field `key` of an object.
pub fn get_field<'a>(j: &'a Json, key: &str) -> (r: Option<&'a Json>)
    ensures
        match field(*j, key@) {
            Some(v) => r matches Some(x) && *x == v,
            None => r is None,
        },
{
    match j {
        Json::Object(entries) => {
            let n = entries.len();
            let mut i: usize = 0;
            assert(entries@.subrange(0, n as int) =~= entries@);
            while i < n
                invariant
                    n == entries@.len(),
                    i <= n,
                    field(*j, key@) == entry_value(entries@, key@),
                    entry_value(entries@, key@) == entry_value(entries@.subrange(i as int, n as int), key@),
                decreases n - i,
            {
                let ghost rest = entries@.subrange(i as int, n as int);
                assert(rest.drop_first() =~= entries@.subrange(i + 1, n as int));
                assert(rest[0] == entries@[i as int]);
                let e = &entries[i];
                if str_eq(e.0.as_str(), key) {
                    assert(entry_value(rest, key@) == Some(e.1));
                    return Some(&e.1);
                }
                i += 1;
            }
            proof {
                assert(entries@.subrange(n as int, n as int) =~= Seq::<(String, Json)>::empty());
            }
            None
        },
        _ => None,
    }
}

/// The text of a string value.
pub fn as_str(j: &Json) -> (r: Option<&str>)
    ensures
        match str_of(Some(*j)) {
            Some(t) => r matches Some(s) && s@ == t,
            None => r is None,
        },
{
    match j {
        Json::String(s) => Some(s.as_str()),
        _ => None,
    }
}

/// Field `key` of an optional value.
pub fn get_field_of<'a>(j: Option<&'a Json>, key: &str) -> (r: Option<&'a Json>)
    ensures
        match field_of(
            match j {
                Some(x) => Some(*x),
                None => None,
            },
            key@,
        ) {
            Some(v) => r matches Some(x) && *x == v,
            None => r is None,
        },
{
    match j {
        Some(v) => get_field(v, key),
        None => None,
    }
}

/// The text of an optional string value.
pub fn as_str_of(j: Option<&Json>) -> (r: Option<&str>)
    ensures
        match str_of(
            match j {
                Some(x) => Some(*x),
                None => None,
            },
        ) {
            Some(t) => r matches Some(s) && s@ == t,
            None => r is None,
        },
{
    match j {
        Some(v) => as_str(v),
        None => None,
    }
}

/// Whether some entry has key `key`.
pub open spec fn has_key(entries: Seq<(String, Json)>, key: Seq<char>) -> bool {
    exists|i: int| 0 <= i < entries.len() && (#[trigger] entries[i]).0@ == key
}

proof fn lemma_entry_value_absent(entries: Seq<(String, Json)>, key: Seq<char>)
    requires
        !has_key(entries, key),
    ensures
        entry_value(entries, key) is None,
    decreases entries.len(),
{
    if entries.len() > 0 {
        assert(entries[0] == entries[0]);
        assert forall|i: int| 0 <= i < entries.drop_first().len() implies (#[trigger] entries.drop_first()[i]).0@ != key by {
            assert(entries.drop_first()[i] == entries[i + 1]);
        }
        lemma_entry_value_absent(entries.drop_first(), key);
    }
}

proof fn lemma_entry_value_push(entries: Seq<(String, Json)>, e: (String, Json), key: Seq<char>)
    requires
        !has_key(entries, e.0@),
    ensures
        key == e.0@ ==> entry_value(entries.push(e), key) == Some(e.1),
        key != e.0@ ==> entry_value(entries.push(e), key) == entry_value(entries, key),
    decreases entries.len(),
{
    if entries.len() == 0 {
        assert(entries.push(e).drop_first() =~= Seq::<(String, Json)>::empty());
        assert(entries.push(e)[0] == e);
        assert(entry_value(entries.push(e).drop_first(), key) is None);
    } else {
        assert(entries.push(e).drop_first() =~= entries.drop_first().push(e));
        assert(entries.push(e)[0] == entries[0]);
        assert(entries[0] == entries[0]);
        assert forall|i: int| 0 <= i < entries.drop_first().len() implies (#[trigger] entries.drop_first()[i]).0@ != e.0@ by {
            assert(entries.drop_first()[i] == entries[i + 1]);
        }
        lemma_entry_value_push(entries.drop_first(), e, key);
    }
}

proof fn lemma_entry_value_update(entries: Seq<(String, Json)>, j: int, e: (String, Json), key: Seq<char>)
    requires
        0 <= j < entries.len(),
        entries[j].0@ == e.0@,
        forall|i: int| 0 <= i < j ==> (#[trigger] entries[i]).0@ != e.0@,
    ensures
        key == e.0@ ==> entry_value(entries.update(j, e), key) == Some(e.1),
        key != e.0@ ==> entry_value(entries.update(j, e), key) == entry_value(entries, key),
    decreases j,
{
    if j == 0 {
        assert(entries.update(j, e).drop_first() =~= entries.drop_first());
    } else {
        assert(entries.update(j, e).drop_first() =~= entries.drop_first().update(j - 1, e));
        assert(entries.update(j, e)[0] == entries[0]);
        assert(entries[0] == entries[0]);
        assert forall|i: int| 0 <= i < j - 1 implies (#[trigger] entries.drop_first()[i]).0@ != e.0@ by {
            assert(entries.drop_first()[i] == entries[i + 1]);
        }
        lemma_entry_value_update(entries.drop_first(), j - 1, e, key);
    }
}

/// Sets field `key` of an object to `v` (`value[key] = v`): an existing
/// entry keeps its place, a new one goes last; the other fields are kept.
pub fn set_field(j: Json, key: &str, v: Json) -> (r: Json)
    requires
        j is Object,
    ensures
        r is Object,
        field(r, key@) == Some(v),
        forall|k: Seq<char>| k != key@ ==> #[trigger] field(r, k) == field(j, k),
{
    match j {
        Json::Object(mut es) => {
            let n = es.len();
            let mut i: usize = 0;
            while i < n
                invariant
                    n == es@.len(),
                    i <= n,
                    forall|k: int| 0 <= k < i ==> (#[trigger] es@[k]).0@ != key@,
                ensures
                    i <= n,
                    forall|k: int| 0 <= k < i ==> (#[trigger] es@[k]).0@ != key@,
                    i < n ==> es@[i as int].0@ == key@,
                decreases n - i,
            {
                if str_eq(es[i].0.as_str(), key) {
                    break;
                }
                i += 1;
            }
            let ghost old_es = es@;
            let e = (key.to_owned(), v);
            if i < n {
                proof {
                    assert forall|k: Seq<char>| true implies #[trigger] entry_value(old_es.update(i as int, e), k)
                        == if k == key@ { Some(e.1) } else { entry_value(old_es, k) } by {
                        lemma_entry_value_update(old_es, i as int, e, k);
                    }
                }
                es.set(i, e);
            } else {
                proof {
                    assert(!has_key(old_es, key@));
                    assert forall|k: Seq<char>| true implies #[trigger] entry_value(old_es.push(e), k)
                        == if k == key@ { Some(e.1) } else { entry_value(old_es, k) } by {
                        lemma_entry_value_push(old_es, e, k);
                    }
                }
                es.push(e);
            }
            Json::Object(es)
        },
        _ => j,
    }
}

/// Value of a string of decimal digits.
pub open spec fn digits_value(s: Seq<char>) -> nat
    decreases s.len(),
{
    if s.len() == 0 {
        0
    } else {
        digits_value(s.drop_last()) * 10 + (s.last() as nat - 48) as nat
    }
}

/// `s` is a non-empty string of decimal digits.
pub open spec fn all_digits(s: Seq<char>) -> bool {
    s.len() > 0 && forall|i: int| 0 <= i < s.len() ==> is_digit(#[trigger] s[i])
}

/// `Value::as_u64`: a number written with digits alone (a non-negative
/// integer) that fits in 64 bits.
pub open spec fn u64_of(j: Option<Json>) -> Option<u64> {
    match j {
        Some(Json::Number(t)) => if all_digits(t@) && digits_value(t@) <= u64::MAX {
            Some(digits_value(t@) as u64)
        } else {
            None
        },
        _ => None,
    }
}

/// Reads a non-negative integer that fits in 64 bits.
pub fn as_u64(j: Option<&Json>) -> (r: Option<u64>)
    ensures
        r == u64_of(match j {
            Some(x) => Some(*x),
            None => None,
        }),
{
    match j {
        Some(Json::Number(t)) => {
            let s = t.as_str();
            let ghost jj = match j {
                Some(x) => Some(*x),
                None => None,
            };
            assert(jj == Some(Json::Number(*t)));
            assert(s@ == t@);
            let n = s.unicode_len();
            if n == 0 {
                return None;
            }
            let mut v: u128 = 0;
            let mut i: usize = 0;
            while i < n
                invariant
                    n == s@.len(),
                    i <= n,
                    s@ == t@,
                    jj == Some(Json::Number(*t)),
                    jj == (match j {
                        Some(x) => Some(*x),
                        None => None,
                    }),
                    forall|k: int| 0 <= k < i ==> is_digit(#[trigger] s@[k]),
                    v == digits_value(s@.subrange(0, i as int)),
                    v <= u64::MAX,
                decreases n - i,
            {
                let c = s.get_char(i);
                assert(s@.subrange(0, i + 1).drop_last() =~= s@.subrange(0, i as int));
                if !('0' <= c && c <= '9') {
                    assert(!is_digit(s@[i as int]));
                    assert(!all_digits(s@));
                    return None;
                }
                let d = (c as u32 - 48) as u128;
                let w = v * 10 + d;
                if w > u64::MAX as u128 {
                    proof {
                        if all_digits(s@) {
                            lemma_digits_grow(s@, (i + 1) as int);
                        }
                    }
                    return None;
                }
                v = w;
                i += 1;
            }
            assert(s@.subrange(0, n as int) =~= s@);
            Some(v as u64)
        },
        _ => None,
    }
}

/// The value of a digit string is at least that of each of its prefixes.
proof fn lemma_digits_grow(s: Seq<char>, k: int)
    requires
        0 <= k <= s.len(),
        forall|i: int| 0 <= i < s.len() ==> is_digit(#[trigger] s[i]),
    ensures
        digits_value(s) >= digits_value(s.subrange(0, k)),
    decreases s.len() - k,
{
    if k < s.len() {
        lemma_digits_grow(s, k + 1);
        assert(s.subrange(0, k + 1).drop_last() =~= s.subrange(0, k));
    } else {
        assert(s.subrange(0, k) =~= s);
    }
}

/// The `serde_json::Value` that `j` stands for (numbers are read back from
/// their text; a text that is not a JSON number becomes `null`).
#[verifier::external_body]
pub(crate) fn to_serde(j: &Json) -> serde_json::Value {
    match j {
        Json::Null => serde_json::Value::Null,
        Json::Bool(b) => serde_json::Value::Bool(*b),
        Json::Number(t) => match t.parse::<serde_json::Number>() {
            Ok(n) => serde_json::Value::Number(n),
            Err(_) => serde_json::Value::Null,
        },
        Json::String(s) => serde_json::Value::String(s.clone()),
        Json::Array(items) => serde_json::Value::Array(items.iter().map(to_serde).collect()),
        Json::Object(es) => serde_json::Value::Object(es.iter().map(|e| (e.0.clone(), to_serde(&e.1))).collect()),
    }
}

/// The `Json` that stands for a `serde_json::Value`.
#[verifier::external_body]
pub(crate) fn from_serde(v: serde_json::Value) -> Json {
    match v {
        serde_json::Value::Null => Json::Null,
        serde_json::Value::Bool(b) => Json::Bool(b),
        serde_json::Value::Number(n) => Json::Number(n.to_string()),
        serde_json::Value::String(s) => Json::String(s),
        serde_json::Value::Array(items) => Json::Array(items.into_iter().map(from_serde).collect()),
        serde_json::Value::Object(m) => Json::Object(m.into_iter().map(|(k, x)| (k, from_serde(x))).collect()),
    }
}

/// `serde_json::to_string` of the value `j` stands for (serialising a
/// `Value` does not fail).
#[verifier::external_body]
pub(crate) fn to_json_text(j: &Json) -> (r: String)
    ensures
        r@ == json_text(*j),
{
    serde_json::to_string(&to_serde(j)).unwrap_or_default()
}

/// `serde_json::from_str::<Value>`: the value a JSON text stands for.
#[verifier::external_body]
pub(crate) fn parse_json(text: &str) -> (r: Option<Json>)
    ensures
        r == json_parsed(text@),
{
    match serde_json::from_str::<serde_json::Value>(text) {
        Ok(v) => Some(from_serde(v)),
        Err(_) => None,
    }
}

} // verus!
