//! Model listings: the per-provider enabled flags of models, and the rows
//! of the Ollama model list.

use vstd::prelude::*;
use vstd::string::*;

use crate::domain::enums::ProviderType;
use crate::http::dto::OllamaModelDto;
use crate::http::validation::{is_vision_model, vision_marker};
use crate::text::{owned, str_eq, unicode_lowercase};

verus! {

/// The stored choice for model `name`: the last selection naming it (later
/// rows override earlier ones), if any.
pub open spec fn selection_of(sel: Seq<(String, bool)>, name: Seq<char>) -> Option<bool>
    decreases sel.len(),
{
    if sel.len() == 0 {
        None
    } else if sel.last().0@ == name {
        Some(sel.last().1)
    } else {
        selection_of(sel.drop_last(), name)
    }
}

/// Whether a model without a stored choice is enabled: yes on Ollama
/// providers (their own synced models), no on Gemini (the shared pool).
pub open spec fn enabled_by_default(t: ProviderType) -> bool {
    t == ProviderType::Ollama
}

/// Looks up the stored choice for a model.
pub fn stored_selection(selections: &Vec<(String, bool)>, name: &str) -> (r: Option<bool>)
    ensures
        r == selection_of(selections@, name@),
{
    let n = selections.len();
    let mut k: usize = n;
    assert(selections@.subrange(0, n as int) =~= selections@);
    while k > 0
        invariant
            n == selections@.len(),
            k <= n,
            selection_of(selections@, name@) == selection_of(selections@.subrange(0, k as int), name@),
        decreases k,
    {
        let ghost pre = selections@.subrange(0, k as int);
        assert(pre.drop_last() =~= selections@.subrange(0, k - 1));
        assert(pre.last() == selections@[k - 1]);
        if str_eq(selections[k - 1].0.as_str(), name) {
            return Some(selections[k - 1].1);
        }
        k -= 1;
    }
    assert(selections@.subrange(0, 0) =~= Seq::<(String, bool)>::empty());
    None
}

/// The enabled flag of each model of a provider: the stored choice, else
/// the default of the provider's kind.
pub fn selected_models(models: &Vec<String>, selections: &Vec<(String, bool)>, kind: ProviderType) -> (r: Vec<
    (String, bool),
>)
    ensures
        r@.len() == models@.len(),
        forall|i: int|
            0 <= i < r@.len() ==> {
                &&& (#[trigger] r@[i]).0@ == models@[i]@
                &&& r@[i].1 == match selection_of(selections@, models@[i]@) {
                    Some(b) => b,
                    None => enabled_by_default(kind),
                }
            },
{
    let default_on = match kind {
        ProviderType::Ollama => true,
        _ => false,
    };
    let mut out: Vec<(String, bool)> = Vec::new();
    let n = models.len();
    let mut i: usize = 0;
    while i < n
        invariant
            n == models@.len(),
            i <= n,
            out@.len() == i,
            default_on == enabled_by_default(kind),
            forall|k: int|
                0 <= k < i ==> {
                    &&& (#[trigger] out@[k]).0@ == models@[k]@
                    &&& out@[k].1 == match selection_of(selections@, models@[k]@) {
                        Some(b) => b,
                        None => enabled_by_default(kind),
                    }
                },
        decreases n - i,
    {
        let name = models[i].as_str();
        let on = match stored_selection(selections, name) {
            Some(b) => b,
            None => default_on,
        };
        out.push((owned(name), on));
        i += 1;
    }
    out
}

/// A row of the Ollama model list: the name, how many providers carry it,
/// whether it reads images, its largest context window (negative counts as
/// 0, not yet profiled), and whether it is enabled anywhere.
pub fn ollama_model_row(model_name: String, provider_count: i64, max_ctx: i64, is_enabled: bool) -> (r:
    OllamaModelDto)
    ensures
        r.model_name == model_name,
        r.provider_count == provider_count,
        r.is_vision == vision_marker(unicode_lowercase(model_name@)),
        r.max_ctx == (if max_ctx < 0 { 0 } else { max_ctx }) as u32,
        r.is_enabled == is_enabled,
{
    let is_vision = is_vision_model(model_name.as_str());
    let ctx = if max_ctx < 0 {
        0
    } else {
        max_ctx
    };
    OllamaModelDto { model_name, provider_count, is_vision, max_ctx: ctx as u32, is_enabled }
}

/// One model of the OpenAI model list.
#[derive(Debug, Clone, PartialEq, Eq)]
pub struct ModelObject {
    pub id: String,
    pub object: &'static str,
    pub created: i64,
    pub owned_by: &'static str,
}

/// `ms[from..]` are the models `names`, owned by `owner`, created at `now`.
pub open spec fn models_from(ms: Seq<ModelObject>, from: int, names: Seq<String>, owner: Seq<char>, now: i64) -> bool {
    forall|k: int|
        0 <= k < names.len() ==> {
            &&& (#[trigger] ms[from + k]).id@ == names[k]@
            &&& ms[from + k].object@ == "model"@
            &&& ms[from + k].created == now
            &&& ms[from + k].owned_by@ == owner
        }
}

fn push_models(out: &mut Vec<ModelObject>, names: &Vec<String>, owner: &'static str, now: i64)
    ensures
        final(out)@.len() == old(out)@.len() + names@.len(),
        final(out)@.subrange(0, old(out)@.len() as int) == old(out)@,
        models_from(final(out)@, old(out)@.len() as int, names@, owner@, now),
{
    let ghost start = out@;
    let n = names.len();
    let mut i: usize = 0;
    while i < n
        invariant
            n == names@.len(),
            i <= n,
            out@.len() == start.len() + i,
            out@.subrange(0, start.len() as int) == start,
            forall|k: int|
                0 <= k < i ==> {
                    &&& (#[trigger] out@[start.len() + k]).id@ == names@[k]@
                    &&& out@[start.len() + k].object@ == "model"@
                    &&& out@[start.len() + k].created == now
                    &&& out@[start.len() + k].owned_by@ == owner@
                },
        decreases n - i,
    {
        let ghost before = out@;
        out.push(ModelObject { id: owned(names[i].as_str()), object: "model", created: now, owned_by: owner });
        assert(out@.subrange(0, start.len() as int) =~= before.subrange(0, start.len() as int));
        assert forall|k: int| 0 <= k < i + 1 implies {
            &&& (#[trigger] out@[start.len() + k]).id@ == names@[k]@
            &&& out@[start.len() + k].object@ == "model"@
            &&& out@[start.len() + k].created == now
            &&& out@[start.len() + k].owned_by@ == owner@
        } by {
            if k < i {
                assert(out@[start.len() + k] == before[start.len() + k]);
            }
        }
        i += 1;
    }
}

/// `GET /v1/models`: the synced Ollama models (owned by `ollama`), then the
/// Gemini models (owned by `google`), all created `now`; a list that could
/// not be read contributes nothing.
pub fn openai_model_list(ollama: Option<&Vec<String>>, gemini: Option<&Vec<String>>, now: i64) -> (r: Vec<ModelObject>)
    ensures
        ({
            let o = match ollama {
                Some(v) => v@,
                None => Seq::empty(),
            };
            let g = match gemini {
                Some(v) => v@,
                None => Seq::empty(),
            };
            &&& r@.len() == o.len() + g.len()
            &&& models_from(r@, 0, o, "ollama"@, now)
            &&& models_from(r@, o.len() as int, g, "google"@, now)
        }),
{
    let mut out: Vec<ModelObject> = Vec::new();
    let empty: Vec<String> = Vec::new();
    let o = match ollama {
        Some(v) => v,
        None => &empty,
    };
    let g = match gemini {
        Some(v) => v,
        None => &empty,
    };
    push_models(&mut out, o, "ollama", now);
    let ghost mid = out@;
    push_models(&mut out, g, "google", now);
    assert forall|k: int| 0 <= k < o@.len() implies {
        &&& (#[trigger] out@[0 + k]).id@ == o@[k]@
        &&& out@[0 + k].object@ == "model"@
        &&& out@[0 + k].created == now
        &&& out@[0 + k].owned_by@ == "ollama"@
    } by {
        assert(out@[k] == out@.subrange(0, mid.len() as int)[k]);
        assert(mid[0 + k] == mid[k]);
    }
    out
}

} // verus!
