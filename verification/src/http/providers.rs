//! Provider listings: the summary shown in the management UI, and the
//! scrape targets handed to the metrics agent.

use vstd::prelude::*;
use vstd::string::*;

use crate::codec::{uuid_hyphenated, uuid_text};
use crate::domain::entities::{GpuServer, LlmProvider};
use crate::domain::enums::ProviderType;
use crate::http::error::AppError;
use crate::http::gemini::{mask_api_key, maskable_text, masked_text};
use crate::http::dto::UpdateProviderRequest;
use crate::text::{i64_to_decimal, int_decimal, owned, texts, trim, trim_str};

verus! {

/// A provider as the management UI lists it; the API key only masked.
#[derive(Debug, Clone, PartialEq, Eq)]
pub struct ProviderSummary {
    pub id: u128,
    pub name: String,
    pub provider_type: String,
    pub url: String,
    pub is_active: bool,
    pub total_vram_mb: i64,
    pub gpu_index: Option<i16>,
    pub server_id: Option<u128>,
    pub is_free_tier: bool,
    pub num_parallel: i16,
    pub status: String,
    pub registered_at: i64,
    /// Masked stored key (`AIza...x1y2`), for providers that have one.
    pub api_key_masked: Option<String>,
}

/// The stored key can be masked: when longer than eight bytes, both cut
/// points fall on character boundaries.
pub open spec fn key_maskable(key: Option<String>) -> bool {
    match key {
        Some(k) => maskable_text(k@),
        None => true,
    }
}

impl ProviderSummary {
    /// The summary of a provider: its fields, type and status by name, and
    /// the stored key masked.
    pub fn from_provider(b: LlmProvider) -> (r: ProviderSummary)
        requires
            key_maskable(b.api_key_encrypted),
        ensures
            r.id == b.id,
            r.name@ == b.name@,
            r.provider_type@ == b.provider_type.name(),
            r.url@ == b.url@,
            r.is_active == b.is_active,
            r.total_vram_mb == b.total_vram_mb,
            r.gpu_index == b.gpu_index,
            r.server_id == b.server_id,
            r.is_free_tier == b.is_free_tier,
            r.num_parallel == b.num_parallel,
            r.status@ == b.status.name(),
            r.registered_at == b.registered_at,
            match b.api_key_encrypted {
                Some(k) => r.api_key_masked matches Some(m) && m@ == masked_text(k@),
                None => r.api_key_masked is None,
            },
    {
        let provider_type = owned(b.provider_type.as_str());
        let status = owned(b.status.as_str());
        let api_key_masked = match &b.api_key_encrypted {
            Some(k) => Some(mask_api_key(k.as_str())),
            None => None,
        };
        ProviderSummary {
            id: b.id,
            name: b.name,
            provider_type,
            url: b.url,
            is_active: b.is_active,
            total_vram_mb: b.total_vram_mb,
            gpu_index: b.gpu_index,
            server_id: b.server_id,
            is_free_tier: b.is_free_tier,
            num_parallel: b.num_parallel,
            status,
            registered_at: b.registered_at,
            api_key_masked,
        }
    }
}

/// One scrape target of the metrics agent: the endpoint and its labels.
#[derive(Debug, Clone, PartialEq, Eq)]
pub struct SdTarget {
    pub targets: Vec<String>,
    pub labels: Vec<(String, String)>,
}

/// `t` scrapes `url` and carries exactly the labels `labels`, in order.
pub open spec fn is_target(t: SdTarget, url: Seq<char>, labels: Seq<(Seq<char>, Seq<char>)>) -> bool {
    &&& texts(t.targets@) == seq![url]
    &&& t.labels@.len() == labels.len()
    &&& forall|k: int| 0 <= k < labels.len() ==> (#[trigger] t.labels@[k]).0@ == labels[k].0 && t.labels@[k].1@ == labels[k].1
}

/// The node-exporter target of a GPU server, when it has an endpoint.
pub open spec fn server_target(s: GpuServer) -> Option<(Seq<char>, Seq<(Seq<char>, Seq<char>)>)> {
    match s.node_exporter_url {
        Some(u) => if u@.len() > 0 {
            Some(
                (
                    u@,
                    seq![
                        ("type"@, "server"@),
                        ("server_id"@, uuid_hyphenated(s.id)),
                        ("server_name"@, s.name@),
                    ],
                ),
            )
        } else {
            None
        },
        None => None,
    }
}

/// The Ollama target of a provider, when it is an active Ollama provider.
pub open spec fn provider_target(p: LlmProvider) -> Option<(Seq<char>, Seq<(Seq<char>, Seq<char>)>)> {
    if p.provider_type == ProviderType::Ollama && p.is_active {
        let base = seq![
            ("type"@, "ollama"@),
            ("provider_id"@, uuid_hyphenated(p.id)),
            ("provider_name"@, p.name@),
            ("total_vram_mb"@, int_decimal(p.total_vram_mb as int)),
        ];
        Some(
            (
                p.url@,
                match p.server_id {
                    Some(sid) => base.push(("server_id"@, uuid_hyphenated(sid))),
                    None => base,
                },
            ),
        )
    } else {
        None
    }
}

/// The targets of a list of servers, in order.
pub open spec fn server_targets(ss: Seq<GpuServer>) -> Seq<(Seq<char>, Seq<(Seq<char>, Seq<char>)>)>
    decreases ss.len(),
{
    if ss.len() == 0 {
        Seq::empty()
    } else {
        match server_target(ss.last()) {
            Some(t) => server_targets(ss.drop_last()).push(t),
            None => server_targets(ss.drop_last()),
        }
    }
}

/// The targets of a list of providers, in order.
pub open spec fn provider_targets(ps: Seq<LlmProvider>) -> Seq<(Seq<char>, Seq<(Seq<char>, Seq<char>)>)>
    decreases ps.len(),
{
    if ps.len() == 0 {
        Seq::empty()
    } else {
        match provider_target(ps.last()) {
            Some(t) => provider_targets(ps.drop_last()).push(t),
            None => provider_targets(ps.drop_last()),
        }
    }
}

/// `ts` are the targets `spec`, in order.
pub open spec fn targets_are(ts: Seq<SdTarget>, spec: Seq<(Seq<char>, Seq<(Seq<char>, Seq<char>)>)>) -> bool {
    ts.len() == spec.len() && forall|k: int| 0 <= k < ts.len() ==> is_target(#[trigger] ts[k], spec[k].0, spec[k].1)
}

fn label(k: &str, v: String) -> (r: (String, String))
    ensures
        r.0@ == k@,
        r.1 == v,
{
    (owned(k), v)
}

fn one_target(url: &str, labels: Vec<(String, String)>) -> (r: SdTarget)
    ensures
        texts(r.targets@) == seq![url@],
        r.labels == labels,
{
    let mut targets: Vec<String> = Vec::new();
    targets.push(owned(url));
    assert(texts(targets@) =~= seq![url@]);
    SdTarget { targets, labels }
}

/// The scrape targets of the metrics agent: each GPU server with a
/// node-exporter endpoint, then each active Ollama provider (linked to its
/// server when it has one).
pub fn metrics_targets(servers: &Vec<GpuServer>, providers: &Vec<LlmProvider>) -> (r: Vec<SdTarget>)
    ensures
        targets_are(r@, server_targets(servers@) + provider_targets(providers@)),
{
    let mut out: Vec<SdTarget> = Vec::new();
    let n = servers.len();
    let mut i: usize = 0;
    while i < n
        invariant
            n == servers@.len(),
            i <= n,
            targets_are(out@, server_targets(servers@.subrange(0, i as int))),
        decreases n - i,
    {
        let ghost pre = server_targets(servers@.subrange(0, i as int));
        assert(servers@.subrange(0, i + 1).drop_last() =~= servers@.subrange(0, i as int));
        assert(servers@.subrange(0, i + 1).last() == servers@[i as int]);
        let s = &servers[i];
        match &s.node_exporter_url {
            Some(u) => {
                if u.as_str().unicode_len() > 0 {
                    let mut labels: Vec<(String, String)> = Vec::new();
                    labels.push(label("type", owned("server")));
                    labels.push(label("server_id", uuid_text(s.id)));
                    labels.push(label("server_name", owned(s.name.as_str())));
                    out.push(one_target(u.as_str(), labels));
                    let ghost post = pre.push(server_target(servers@[i as int]).unwrap());
                    assert forall|k: int| 0 <= k < out@.len() implies is_target(#[trigger] out@[k], post[k].0, post[k].1) by {
                        if k < pre.len() {
                            assert(post[k] == pre[k]);
                        }
                    }
                }
            },
            None => {},
        }
        i += 1;
    }
    assert(servers@.subrange(0, n as int) =~= servers@);
    let ghost st = server_targets(servers@);
    let m = providers.len();
    let mut j: usize = 0;
    assert(provider_targets(providers@.subrange(0, 0)) =~= Seq::empty());
    assert(st + provider_targets(providers@.subrange(0, 0)) =~= st);
    while j < m
        invariant
            m == providers@.len(),
            j <= m,
            targets_are(out@, st + provider_targets(providers@.subrange(0, j as int))),
        decreases m - j,
    {
        let ghost pre = st + provider_targets(providers@.subrange(0, j as int));
        assert(providers@.subrange(0, j + 1).drop_last() =~= providers@.subrange(0, j as int));
        assert(providers@.subrange(0, j + 1).last() == providers@[j as int]);
        let p = &providers[j];
        if p.is_ollama() && p.is_active {
            let mut labels: Vec<(String, String)> = Vec::new();
            labels.push(label("type", owned("ollama")));
            labels.push(label("provider_id", uuid_text(p.id)));
            labels.push(label("provider_name", owned(p.name.as_str())));
            labels.push(label("total_vram_mb", i64_to_decimal(p.total_vram_mb)));
            match p.server_id {
                Some(sid) => labels.push(label("server_id", uuid_text(sid))),
                None => {},
            }
            out.push(one_target(p.url.as_str(), labels));
            let ghost t = provider_target(providers@[j as int]).unwrap();
            let ghost post = pre.push(t);
            assert(st + provider_targets(providers@.subrange(0, j + 1)) =~= post);
            assert forall|k: int| 0 <= k < out@.len() implies is_target(#[trigger] out@[k], post[k].0, post[k].1) by {
                if k < pre.len() {
                    assert(post[k] == pre[k]);
                }
            }
        } else {
            assert(st + provider_targets(providers@.subrange(0, j + 1)) =~= pre);
        }
        j += 1;
    }
    assert(providers@.subrange(0, m as int) =~= providers@);
    out
}

/// Refusal of a pass-through request when no Ollama provider is active.
pub const ERR_NO_ACTIVE_OLLAMA: &'static str = "no active Ollama provider";

/// The provider that pass-through Ollama requests go to: the first Ollama
/// provider of the active ones; with none, 503.
pub fn pick_ollama(providers: &Vec<LlmProvider>) -> (r: Result<usize, AppError>)
    ensures
        match r {
            Ok(i) => i < providers@.len() && providers@[i as int].provider_type == ProviderType::Ollama
                && forall|k: int| 0 <= k < i ==> providers@[k].provider_type != ProviderType::Ollama,
            Err(e) => (forall|k: int| 0 <= k < providers@.len() ==> providers@[k].provider_type != ProviderType::Ollama)
                && (e matches AppError::ServiceUnavailable(m) && m@ == ERR_NO_ACTIVE_OLLAMA@),
        },
{
    let n = providers.len();
    let mut i: usize = 0;
    while i < n
        invariant
            n == providers@.len(),
            i <= n,
            forall|k: int| 0 <= k < i ==> providers@[k].provider_type != ProviderType::Ollama,
        decreases n - i,
    {
        if providers[i].is_ollama() {
            return Ok(i);
        }
        i += 1;
    }
    Err(AppError::ServiceUnavailable(owned(ERR_NO_ACTIVE_OLLAMA)))
}

/// The content type forwarded: the given one, else JSON.
pub fn content_type_or_json(given: Option<&str>) -> (r: &str)
    ensures
        r@ == match given {
            Some(c) => c@,
            None => "application/json"@,
        },
{
    match given {
        Some(c) => c,
        None => "application/json",
    }
}

/// Refusal of a blank provider name.
pub const ERR_EMPTY_PROVIDER_NAME: &'static str = "name must not be empty";

/// The name of a provider update: trimmed; a blank one is refused.
pub fn provider_update_name(name: &str) -> (r: Result<String, AppError>)
    ensures
        trim(name@).len() == 0 ==> (r matches Err(AppError::BadRequest(m)) && m@ == ERR_EMPTY_PROVIDER_NAME@),
        trim(name@).len() > 0 ==> (r matches Ok(n) && n@ == trim(name@)),
{
    let t = trim_str(name);
    if t.unicode_len() == 0 {
        Err(AppError::BadRequest(owned(ERR_EMPTY_PROVIDER_NAME)))
    } else {
        Ok(owned(t))
    }
}

/// A given URL of an update must pass the provider URL screen before it is
/// applied; an empty one is stored unscreened.
pub fn update_url_needs_check(url: Option<&str>) -> (r: bool)
    ensures
        r == match url {
            Some(u) => u@.len() > 0,
            None => false,
        },
{
    match url {
        Some(u) => u.unicode_len() > 0,
        None => false,
    }
}

/// Applies an update to a provider (its name already checked and trimmed,
/// its URL already screened): the name and, when given, the URL are set; a
/// non-empty API key replaces the stored one; the VRAM size, free-tier,
/// parallelism and active flags change when given; the GPU index and server
/// link are set as given (absent clears them). Type, id, status and
/// registration time stay.
pub fn apply_provider_update(p: LlmProvider, name: String, req: UpdateProviderRequest) -> (r: LlmProvider)
    ensures
        r.id == p.id && r.provider_type == p.provider_type && r.status == p.status && r.registered_at == p.registered_at,
        r.name == name,
        r.url == match req.url {
            Some(u) => u,
            None => p.url,
        },
        r.api_key_encrypted == match req.api_key {
            Some(k) => if k@.len() > 0 {
                Some(k)
            } else {
                p.api_key_encrypted
            },
            None => p.api_key_encrypted,
        },
        r.total_vram_mb == match req.total_vram_mb {
            Some(v) => v,
            None => p.total_vram_mb,
        },
        r.gpu_index == req.gpu_index,
        r.server_id == match req.server_id {
            Some(s) => Some(s.0),
            None => None,
        },
        r.is_free_tier == match req.is_free_tier {
            Some(v) => v,
            None => p.is_free_tier,
        },
        r.num_parallel == match req.num_parallel {
            Some(v) => v,
            None => p.num_parallel,
        },
        r.is_active == match req.is_active {
            Some(v) => v,
            None => p.is_active,
        },
{
    let mut p = p;
    p.name = name;
    match req.url {
        Some(u) => p.url = u,
        None => {},
    }
    match req.api_key {
        Some(k) => {
            if k.as_str().unicode_len() > 0 {
                p.api_key_encrypted = Some(k);
            }
        },
        None => {},
    }
    match req.total_vram_mb {
        Some(v) => p.total_vram_mb = v,
        None => {},
    }
    p.gpu_index = req.gpu_index;
    p.server_id = match req.server_id {
        Some(s) => Some(s.0),
        None => None,
    };
    match req.is_free_tier {
        Some(v) => p.is_free_tier = v,
        None => {},
    }
    match req.num_parallel {
        Some(v) => p.num_parallel = v,
        None => {},
    }
    match req.is_active {
        Some(v) => p.is_active = v,
        None => {},
    }
    p
}

} // verus!
