//! Global Ollama model sync: which providers are synced, where their model
//! lists are read, what is read from a reply, and the progress entry that is
//! recorded per provider.

use vstd::prelude::*;
use vstd::string::*;

use crate::codec::{uuid_hyphenated, uuid_text};
use crate::domain::entities::LlmProvider;
use crate::domain::enums::ProviderType;
use crate::http::error::AppError;
use crate::http::inference::is_str;
use crate::json::{as_str_of, field, get_field, str_of, Json};
use crate::text::{concat2, owned, strip_trailing_slashes, texts, trim_trailing_slashes};

verus! {

/// Path of Ollama's model list.
pub const OLLAMA_TAGS_PATH: &'static str = "/api/tags";

/// Refusal when no Ollama provider is registered.
pub const ERR_NO_OLLAMA_PROVIDERS: &'static str = "no active Ollama providers registered";

/// Error text recorded for a provider whose sync failed.
pub const SYNC_FAILED: &'static str = "sync failed";

/// The model-list URL of an Ollama base URL: trailing slashes dropped, then
/// `/api/tags`.
pub open spec fn tags_url(base: Seq<char>) -> Seq<char> {
    strip_trailing_slashes(base) + "/api/tags"@
}

/// Builds the model-list URL of an Ollama base URL.
pub fn ollama_tags_url(base: &str) -> (r: String)
    ensures
        r@ == tags_url(base@),
{
    concat2(trim_trailing_slashes(base), OLLAMA_TAGS_PATH)
}

/// One provider to sync: its id, its name and its model-list URL.
#[derive(Debug, Clone, PartialEq, Eq)]
pub struct SyncTarget {
    pub provider_id: u128,
    pub name: String,
    pub tags_url: String,
}

/// The sync targets of a provider list: the Ollama providers, in order, with
/// their id, name and model-list URL.
pub open spec fn sync_targets(ps: Seq<LlmProvider>) -> Seq<(u128, Seq<char>, Seq<char>)>
    decreases ps.len(),
{
    if ps.len() == 0 {
        Seq::empty()
    } else {
        let rest = sync_targets(ps.drop_last());
        let p = ps.last();
        if p.provider_type == ProviderType::Ollama {
            rest.push((p.id, p.name@, tags_url(p.url@)))
        } else {
            rest
        }
    }
}

/// `ts` holds exactly the targets of `spec`, in order.
pub open spec fn targets_match(ts: Seq<SyncTarget>, spec: Seq<(u128, Seq<char>, Seq<char>)>) -> bool {
    &&& ts.len() == spec.len()
    &&& forall|k: int|
        0 <= k < ts.len() ==> {
            &&& (#[trigger] ts[k]).provider_id == spec[k].0
            &&& ts[k].name@ == spec[k].1
            &&& ts[k].tags_url@ == spec[k].2
        }
}

/// The providers that a global sync visits: every Ollama provider, in
/// order. With none, the request is refused (400).
pub fn ollama_sync_targets(providers: &Vec<LlmProvider>) -> (r: Result<Vec<SyncTarget>, AppError>)
    ensures
        match r {
            Ok(ts) => targets_match(ts@, sync_targets(providers@)) && ts@.len() > 0,
            Err(e) => sync_targets(providers@).len() == 0 && e.is_bad_request(ERR_NO_OLLAMA_PROVIDERS@),
        },
{
    let mut out: Vec<SyncTarget> = Vec::new();
    let n = providers.len();
    let mut i: usize = 0;
    while i < n
        invariant
            n == providers@.len(),
            i <= n,
            targets_match(out@, sync_targets(providers@.subrange(0, i as int))),
        decreases n - i,
    {
        let ghost pre = sync_targets(providers@.subrange(0, i as int));
        assert(providers@.subrange(0, i + 1).drop_last() =~= providers@.subrange(0, i as int));
        assert(providers@.subrange(0, i + 1).last() == providers@[i as int]);
        let p = &providers[i];
        if p.is_ollama() {
            let t = SyncTarget { provider_id: p.id, name: owned(p.name.as_str()), tags_url: ollama_tags_url(p.url.as_str()) };
            out.push(t);
            let ghost post = pre.push((p.id, p.name@, tags_url(p.url@)));
            assert(targets_match(out@, post)) by {
                assert forall|k: int| 0 <= k < out@.len() implies {
                    &&& (#[trigger] out@[k]).provider_id == post[k].0
                    &&& out@[k].name@ == post[k].1
                    &&& out@[k].tags_url@ == post[k].2
                } by {
                    if k < pre.len() {
                        assert(post[k] == pre[k]);
                    }
                }
            }
        }
        i += 1;
    }
    assert(providers@.subrange(0, n as int) =~= providers@);
    if out.len() == 0 {
        return Err(AppError::BadRequest(owned(ERR_NO_OLLAMA_PROVIDERS)));
    }
    Ok(out)
}

/// The names listed in `models`: the `name` string of each entry, in order;
/// entries without one are skipped.
pub open spec fn listed_names(models: Seq<Json>) -> Seq<Seq<char>>
    decreases models.len(),
{
    if models.len() == 0 {
        Seq::empty()
    } else {
        let rest = listed_names(models.drop_last());
        match str_of(field(models.last(), "name"@)) {
            Some(n) => rest.push(n),
            None => rest,
        }
    }
}

/// The model names of an `/api/tags` reply: those of its `models` array,
/// none when there is no such array.
pub open spec fn tag_names(reply: Json) -> Seq<Seq<char>> {
    match field(reply, "models"@) {
        Some(Json::Array(items)) => listed_names(items@),
        _ => Seq::empty(),
    }
}

/// Reads the model names of an `/api/tags` reply.
pub fn tag_model_names(reply: &Json) -> (r: Vec<String>)
    ensures
        texts(r@) == tag_names(*reply),
{
    let mut out: Vec<String> = Vec::new();
    match get_field(reply, "models") {
        Some(Json::Array(items)) => {
            let n = items.len();
            let mut i: usize = 0;
            while i < n
                invariant
                    n == items@.len(),
                    i <= n,
                    texts(out@) == listed_names(items@.subrange(0, i as int)),
                decreases n - i,
            {
                assert(items@.subrange(0, i + 1).drop_last() =~= items@.subrange(0, i as int));
                assert(items@.subrange(0, i + 1).last() == items@[i as int]);
                match as_str_of(get_field(&items[i], "name")) {
                    Some(name) => {
                        let ghost before = out@;
                        out.push(owned(name));
                        assert(texts(out@) =~= texts(before).push(name@));
                    },
                    None => {},
                }
                i += 1;
            }
            assert(items@.subrange(0, n as int) =~= items@);
        },
        _ => {},
    }
    out
}

/// `j` is an array of the strings `names`.
pub open spec fn is_string_array(j: Json, names: Seq<Seq<char>>) -> bool {
    j matches Json::Array(items) && items@.len() == names.len() && forall|k: int|
        0 <= k < names.len() ==> is_str(#[trigger] items@[k], names[k])
}

/// The progress entry of one provider: its id, its name, the models read
/// (`Some`) or none with the error `"sync failed"`.
pub open spec fn is_progress_entry(r: Json, provider_id: u128, name: Seq<char>, models: Option<Seq<Seq<char>>>) -> bool {
    r matches Json::Object(es) && es@.len() == 4 && {
        &&& es@[0].0@ == "provider_id"@ && is_str(es@[0].1, uuid_hyphenated(provider_id))
        &&& es@[1].0@ == "name"@ && is_str(es@[1].1, name)
        &&& es@[2].0@ == "models"@ && is_string_array(es@[2].1, match models {
            Some(m) => m,
            None => Seq::empty(),
        })
        &&& es@[3].0@ == "error"@ && match models {
            Some(_) => es@[3].1 == Json::Null,
            None => is_str(es@[3].1, SYNC_FAILED@),
        }
    }
}

fn string_array(names: Vec<String>) -> (r: Json)
    ensures
        is_string_array(r, texts(names@)),
{
    let mut items: Vec<Json> = Vec::new();
    let n = names.len();
    let mut i: usize = 0;
    while i < n
        invariant
            n == names@.len(),
            i <= n,
            items@.len() == i,
            forall|k: int| 0 <= k < i ==> is_str(#[trigger] items@[k], names@[k]@),
        decreases n - i,
    {
        items.push(Json::String(owned(names[i].as_str())));
        i += 1;
    }
    Json::Array(items)
}

/// Builds the progress entry of one provider from the outcome of its sync:
/// the model names read, or `None` when reading or storing them failed.
pub fn sync_progress_entry(target: &SyncTarget, models: Option<Vec<String>>) -> (r: Json)
    ensures
        is_progress_entry(r, target.provider_id, target.name@, match models {
            Some(m) => Some(texts(m@)),
            None => None,
        }),
{
    let mut es: Vec<(String, Json)> = Vec::new();
    es.push((owned("provider_id"), Json::String(uuid_text(target.provider_id))));
    es.push((owned("name"), Json::String(owned(target.name.as_str()))));
    match models {
        Some(m) => {
            es.push((owned("models"), string_array(m)));
            es.push((owned("error"), Json::Null));
        },
        None => {
            es.push((owned("models"), Json::Array(Vec::new())));
            es.push((owned("error"), Json::String(owned(SYNC_FAILED))));
        },
    }
    Json::Object(es)
}

} // verus!
