//! Image input: the count limits of a request, and the vision fallback that
//! describes images for models that cannot read them.
//!
//! The fallback asks each Ollama provider in turn to describe one image and
//! moves on to the next image at the first non-empty description. `VisionScan`
//! holds that walk; the caller performs each request it asks for and hands
//! back the reply.

use vstd::prelude::*;
use vstd::string::*;

use crate::domain::entities::LlmProvider;
use crate::domain::enums::ProviderType;
use crate::http::inference::{byte_len, is_str};
use crate::http::validation::{estimate_tokens, is_vision_model, vision_marker};
use crate::json::{as_str_of, field, get_field, str_of, Json};
use crate::text::{texts, unicode_lowercase, concat2, owned, strip_trailing_slashes, trim, trim_str, trim_trailing_slashes, u64_to_decimal, decimal};

verus! {

/// Vision model used when neither the request nor the configuration names one.
pub const DEFAULT_VISION_MODEL: &'static str = "qwen3-vl:8b";

/// Prompt sent with an image when the user's prompt is blank.
pub const DEFAULT_VISION_PROMPT: &'static str = "Describe this image in detail.";

/// Separator between the descriptions of successive images.
pub const DESCRIPTION_SEPARATOR: &'static str = "\n\n";

/// Refusal when the request carries images and image input is switched off.
pub const ERR_IMAGES_DISABLED: &'static str = "image input is disabled";

// ── Image count ──────────────────────────────────────────────────────────────

/// The refusal text for more than `max` images.
pub open spec fn too_many_images(max: nat) -> Seq<char> {
    "too many images (max "@ + decimal(max) + ")"@
}

/// The refusal of a request with `count` images under a limit of `max`
/// images (`0` switches image input off), if any.
pub open spec fn image_count_refusal(count: nat, max: nat) -> Option<Seq<char>> {
    if count == 0 {
        None
    } else if max == 0 {
        Some(ERR_IMAGES_DISABLED@)
    } else if count > max {
        Some(too_many_images(max))
    } else {
        None
    }
}

/// Checks the number of images of a request against the configured limit.
pub fn check_image_count(count: usize, max_images: u32) -> (r: Option<String>)
    ensures
        match image_count_refusal(count as nat, max_images as nat) {
            Some(m) => r matches Some(s) && s@ == m,
            None => r is None,
        },
{
    if count == 0 {
        return None;
    }
    if max_images == 0 {
        return Some(owned(ERR_IMAGES_DISABLED));
    }
    if count > max_images as usize {
        let mut m = owned("too many images (max ");
        let d = u64_to_decimal(max_images as u64);
        m.append(d.as_str());
        m.append(")");
        return Some(m);
    }
    None
}

/// An image is re-encoded when its base64 text is longer than the limit.
pub fn needs_compression(image_b64_len: usize, max_image_b64_bytes: usize) -> (r: bool)
    ensures
        r == (image_b64_len > max_image_b64_bytes),
{
    image_b64_len > max_image_b64_bytes
}

// ── Vision fallback ──────────────────────────────────────────────────────────

/// Images are described first when there are some and the model cannot
/// read them itself.
pub fn needs_vision_fallback(model_name: &str, image_count: usize) -> (r: bool)
    ensures
        r == (image_count > 0 && !vision_marker(unicode_lowercase(model_name@))),
{
    image_count > 0 && !is_vision_model(model_name)
}

/// The vision model: the request's override, else the configured one, else
/// `qwen3-vl:8b`.
pub fn vision_model_choice(override_model: Option<&str>, configured: Option<&str>) -> (r: String)
    ensures
        r@ == match override_model {
            Some(m) => m@,
            None => match configured {
                Some(c) => c@,
                None => DEFAULT_VISION_MODEL@,
            },
        },
{
    match override_model {
        Some(m) => owned(m),
        None => match configured {
            Some(c) => owned(c),
            None => owned(DEFAULT_VISION_MODEL),
        },
    }
}

/// The prompt sent with each image: the user's prompt, or the default one
/// when it is blank.
pub fn vision_prompt(user_prompt: &str) -> (r: &str)
    ensures
        r@ == if trim(user_prompt@).len() == 0 { DEFAULT_VISION_PROMPT@ } else { user_prompt@ },
{
    if trim_str(user_prompt).unicode_len() == 0 {
        DEFAULT_VISION_PROMPT
    } else {
        user_prompt
    }
}

/// The base URLs of the Ollama providers of a list, in order.
pub open spec fn ollama_urls_of(ps: Seq<LlmProvider>) -> Seq<Seq<char>>
    decreases ps.len(),
{
    if ps.len() == 0 {
        Seq::empty()
    } else {
        let rest = ollama_urls_of(ps.drop_last());
        if ps.last().provider_type == ProviderType::Ollama {
            rest.push(ps.last().url@)
        } else {
            rest
        }
    }
}

/// Collects the base URLs of the Ollama providers.
pub fn ollama_urls(providers: &Vec<LlmProvider>) -> (r: Vec<String>)
    ensures
        texts(r@) == ollama_urls_of(providers@),
{
    let mut out: Vec<String> = Vec::new();
    let n = providers.len();
    let mut i: usize = 0;
    while i < n
        invariant
            n == providers@.len(),
            i <= n,
            texts(out@) == ollama_urls_of(providers@.subrange(0, i as int)),
        decreases n - i,
    {
        assert(providers@.subrange(0, i + 1).drop_last() =~= providers@.subrange(0, i as int));
        assert(providers@.subrange(0, i + 1).last() == providers@[i as int]);
        if providers[i].is_ollama() {
            let ghost before = out@;
            out.push(owned(providers[i].url.as_str()));
            assert(texts(out@) =~= texts(before).push(providers@[i as int].url@));
        }
        i += 1;
    }
    assert(providers@.subrange(0, n as int) =~= providers@);
    out
}

/// The generate endpoint of an Ollama base URL.
pub fn vision_endpoint(base: &str) -> (r: String)
    ensures
        r@ == strip_trailing_slashes(base@) + "/api/generate"@,
{
    concat2(trim_trailing_slashes(base), "/api/generate")
}

/// `r` is the body of a one-image describe request: model, prompt, the
/// image, no streaming, temperature zero.
pub open spec fn is_vision_body(r: Json, model: Seq<char>, prompt: Seq<char>, image: Seq<char>) -> bool {
    r matches Json::Object(es) && es@.len() == 5 && {
        &&& es@[0].0@ == "model"@ && is_str(es@[0].1, model)
        &&& es@[1].0@ == "prompt"@ && is_str(es@[1].1, prompt)
        &&& es@[2].0@ == "images"@ && (es@[2].1 matches Json::Array(a) && a@.len() == 1 && is_str(a@[0], image))
        &&& es@[3].0@ == "stream"@ && es@[3].1 == Json::Bool(false)
        &&& es@[4].0@ == "options"@ && (es@[4].1 matches Json::Object(o) && o@.len() == 1 && o@[0].0@
            == "temperature"@ && (o@[0].1 matches Json::Number(t) && t@ == "0.0"@))
    }
}

/// Builds the body that asks the vision model to describe one image.
pub fn vision_request_body(model: &str, prompt: &str, image: &str) -> (r: Json)
    ensures
        is_vision_body(r, model@, prompt@, image@),
{
    let mut images: Vec<Json> = Vec::new();
    images.push(Json::String(owned(image)));
    let mut options: Vec<(String, Json)> = Vec::new();
    options.push((owned("temperature"), Json::Number(owned("0.0"))));
    let mut es: Vec<(String, Json)> = Vec::new();
    es.push((owned("model"), Json::String(owned(model))));
    es.push((owned("prompt"), Json::String(owned(prompt))));
    es.push((owned("images"), Json::Array(images)));
    es.push((owned("stream"), Json::Bool(false)));
    es.push((owned("options"), Json::Object(options)));
    Json::Object(es)
}

/// The description in a reply: its `response` string, trimmed; empty when
/// there is none.
pub open spec fn reply_description(reply: Option<Json>) -> Seq<char> {
    match reply {
        Some(j) => match str_of(field(j, "response"@)) {
            Some(s) => trim(s),
            None => Seq::empty(),
        },
        None => Seq::empty(),
    }
}

/// Reads the description of a reply (`None` for a failed request).
pub fn description_of(reply: Option<&Json>) -> (r: String)
    ensures
        r@ == reply_description(match reply {
            Some(j) => Some(*j),
            None => None,
        }),
{
    match reply {
        Some(j) => match as_str_of(get_field(j, "response")) {
            Some(s) => owned(trim_str(s)),
            None => String::new(),
        },
        None => String::new(),
    }
}

/// The walk over images and providers.
#[derive(Debug)]
pub struct VisionScan {
    pub image_count: usize,
    pub provider_count: usize,
    /// The image being described.
    pub image: usize,
    /// The provider asked next for it.
    pub provider: usize,
    /// The descriptions found so far, one per described image.
    pub descriptions: Vec<String>,
}

/// What the walk asks for next.
#[derive(Debug, Clone, Copy, PartialEq, Eq, Structural)]
pub enum VisionStep {
    /// Ask provider `provider` to describe image `image`.
    Ask { image: usize, provider: usize },
    /// Every image has been tried.
    Finished,
}

impl VisionScan {
    /// The walk's invariant.
    pub open spec fn wf(&self) -> bool {
        &&& self.image <= self.image_count
        &&& self.provider < self.provider_count || (self.provider == 0 && self.provider_count == 0)
        &&& self.descriptions@.len() <= self.image
    }

    /// Whether every image has been tried.
    pub open spec fn done(&self) -> bool {
        self.image >= self.image_count || self.provider_count == 0
    }

    /// A walk over `image_count` images and `provider_count` providers,
    /// starting at the first of each, with nothing found.
    pub fn new(image_count: usize, provider_count: usize) -> (r: VisionScan)
        ensures
            r.wf(),
            r.image_count == image_count,
            r.provider_count == provider_count,
            r.image == 0 && r.provider == 0,
            r.descriptions@.len() == 0,
    {
        VisionScan { image_count, provider_count, image: 0, provider: 0, descriptions: Vec::new() }
    }

    /// The next request, or the end of the walk.
    pub fn next_step(&self) -> (r: VisionStep)
        ensures
            self.done() ==> r == VisionStep::Finished,
            !self.done() ==> r == (VisionStep::Ask { image: self.image, provider: self.provider }),
    {
        if self.image >= self.image_count || self.provider_count == 0 {
            VisionStep::Finished
        } else {
            VisionStep::Ask { image: self.image, provider: self.provider }
        }
    }

    /// Takes the reply to the last request (`None` when it failed): a
    /// non-empty description is kept and the walk moves to the next image;
    /// otherwise the next provider is asked, or, after the last provider,
    /// the image is given up.
    pub fn on_reply(&mut self, reply: Option<&Json>)
        requires
            old(self).wf(),
            !old(self).done(),
        ensures
            final(self).wf(),
            final(self).image_count == old(self).image_count,
            final(self).provider_count == old(self).provider_count,
            ({
                let d = reply_description(match reply {
                    Some(j) => Some(*j),
                    None => None,
                });
                if d.len() > 0 {
                    &&& texts(final(self).descriptions@) == texts(old(self).descriptions@).push(d)
                    &&& final(self).image == old(self).image + 1
                    &&& final(self).provider == 0
                } else if old(self).provider + 1 < old(self).provider_count {
                    &&& final(self).descriptions@ == old(self).descriptions@
                    &&& final(self).image == old(self).image
                    &&& final(self).provider == old(self).provider + 1
                } else {
                    &&& final(self).descriptions@ == old(self).descriptions@
                    &&& final(self).image == old(self).image + 1
                    &&& final(self).provider == 0
                }
            }),
    {
        let d = description_of(reply);
        if d.unicode_len() > 0 {
            let ghost before = self.descriptions@;
            self.descriptions.push(d);
            assert(texts(self.descriptions@) =~= texts(before).push(d@));
            self.image = self.image + 1;
            self.provider = 0;
        } else if self.provider + 1 < self.provider_count {
            self.provider = self.provider + 1;
        } else {
            self.image = self.image + 1;
            self.provider = 0;
        }
    }

    /// The analysis of the walk: `None` when no image was described, else
    /// the descriptions joined by a blank line.
    pub fn finish(self, vision_model: String, image_count: usize) -> (r: Option<VisionAnalysis>)
        ensures
            self.descriptions@.len() == 0 ==> r is None,
            self.descriptions@.len() > 0 ==> (r matches Some(a) && {
                &&& a.vision_model@ == vision_model@
                &&& a.image_count == image_count as u32
                &&& a.analysis@ == joined(texts(self.descriptions@))
                &&& a.analysis_tokens == (a.analysis@.len() / 4) as u32
            }),
    {
        if self.descriptions.len() == 0 {
            return None;
        }
        let analysis = join_descriptions(&self.descriptions);
        let tokens = estimate_tokens(analysis.as_str());
        Some(VisionAnalysis {
            vision_model,
            image_count: image_count as u32,
            analysis_tokens: tokens as u32,
            analysis,
        })
    }
}

/// The descriptions joined by a blank line.
pub open spec fn joined(ds: Seq<Seq<char>>) -> Seq<char>
    decreases ds.len(),
{
    if ds.len() == 0 {
        Seq::empty()
    } else if ds.len() == 1 {
        ds[0]
    } else {
        joined(ds.drop_last()) + "\n\n"@ + ds.last()
    }
}

/// Joins descriptions with a blank line between each two.
pub fn join_descriptions(ds: &Vec<String>) -> (r: String)
    ensures
        r@ == joined(texts(ds@)),
{
    let mut out = String::new();
    let n = ds.len();
    let mut i: usize = 0;
    while i < n
        invariant
            n == ds@.len(),
            i <= n,
            out@ == joined(texts(ds@.subrange(0, i as int))),
        decreases n - i,
    {
        assert(texts(ds@.subrange(0, i + 1)).drop_last() =~= texts(ds@.subrange(0, i as int)));
        if i > 0 {
            out.append(DESCRIPTION_SEPARATOR);
        }
        out.append(ds[i].as_str());
        proof {
            let t = texts(ds@.subrange(0, i + 1));
            assert(t.last() == ds@[i as int]@);
            if i == 0 {
                assert(t.len() == 1);
            }
        }
        i += 1;
    }
    assert(ds@.subrange(0, n as int) =~= ds@);
    out
}

/// What the vision fallback hands back: the model that described the
/// images, how many were sent, and the joined descriptions with their token
/// estimate.
#[derive(Debug, Clone, PartialEq, Eq)]
pub struct VisionAnalysis {
    pub vision_model: String,
    pub image_count: u32,
    pub analysis_tokens: u32,
    pub analysis: String,
}

// ── What a whole walk keeps ──────────────────────────────────────────────────

/// The first non-empty description of a list, if any.
pub open spec fn first_nonempty(ds: Seq<Seq<char>>) -> Option<Seq<char>>
    decreases ds.len(),
{
    if ds.len() == 0 {
        None
    } else if ds[0].len() > 0 {
        Some(ds[0])
    } else {
        first_nonempty(ds.drop_first())
    }
}

/// The descriptions kept for images whose providers would answer as in
/// `table` (`table[i][p]` is what provider `p` says of image `i`): for each
/// image in order, the first non-empty answer, when there is one.
pub open spec fn kept_descriptions(table: Seq<Seq<Seq<char>>>) -> Seq<Seq<char>>
    decreases table.len(),
{
    if table.len() == 0 {
        Seq::empty()
    } else {
        let rest = kept_descriptions(table.drop_first());
        match first_nonempty(table[0]) {
            Some(d) => seq![d] + rest,
            None => rest,
        }
    }
}

/// The descriptions a walk holds at its end when it stands at image `i`,
/// provider `p`, holding `acc`, and each request is answered as in `table`
/// over `pc` providers (the steps of `VisionScan::on_reply`).
pub open spec fn walk_from(table: Seq<Seq<Seq<char>>>, pc: nat, i: int, p: int, acc: Seq<Seq<char>>) -> Seq<Seq<char>>
    decreases table.len() - i, pc - p,
{
    if i < 0 || i >= table.len() || p < 0 || p >= pc {
        acc
    } else {
        let d = table[i][p];
        if d.len() > 0 {
            walk_from(table, pc, i + 1, 0, acc.push(d))
        } else if p + 1 < pc {
            walk_from(table, pc, i, p + 1, acc)
        } else {
            walk_from(table, pc, i + 1, 0, acc)
        }
    }
}

/// The answers for image `i` from provider `p` on, and those of the later
/// images.
spec fn rest_from(table: Seq<Seq<Seq<char>>>, pc: nat, i: int, p: int) -> Seq<Seq<char>> {
    if 0 <= i < table.len() {
        let head = match first_nonempty(table[i].subrange(p, pc as int)) {
            Some(d) => seq![d],
            None => Seq::empty(),
        };
        head + kept_descriptions(table.subrange(i + 1, table.len() as int))
    } else {
        Seq::empty()
    }
}

proof fn lemma_rest_from_start(table: Seq<Seq<Seq<char>>>, pc: nat, i: int)
    requires
        0 <= i <= table.len(),
        forall|k: int| 0 <= k < table.len() ==> (#[trigger] table[k]).len() == pc,
    ensures
        rest_from(table, pc, i, 0) == kept_descriptions(table.subrange(i, table.len() as int)),
{
    let t = table.subrange(i, table.len() as int);
    if i < table.len() {
        assert(t[0] == table[i]);
        assert(t.drop_first() =~= table.subrange(i + 1, table.len() as int));
        assert(table[i].subrange(0, pc as int) =~= table[i]);
    } else {
        assert(t.len() == 0);
    }
}

proof fn lemma_walk_from(table: Seq<Seq<Seq<char>>>, pc: nat, i: int, p: int, acc: Seq<Seq<char>>)
    requires
        0 <= i <= table.len(),
        0 <= p < pc,
        forall|k: int| 0 <= k < table.len() ==> (#[trigger] table[k]).len() == pc,
    ensures
        walk_from(table, pc, i, p, acc) == acc + rest_from(table, pc, i, p),
    decreases table.len() - i, pc - p,
{
    if i == table.len() {
        assert(acc + Seq::<Seq<char>>::empty() =~= acc);
    } else {
        let row = table[i];
        let d = row[p];
        let sub = row.subrange(p, pc as int);
        assert(sub[0] == d);
        assert(sub.drop_first() =~= row.subrange(p + 1, pc as int));
        if d.len() > 0 {
            lemma_walk_from(table, pc, i + 1, 0, acc.push(d));
            lemma_rest_from_start(table, pc, i + 1);
            if i + 1 < table.len() {
                lemma_rest_from_start(table, pc, i + 1);
            }
            assert(acc.push(d) + rest_from(table, pc, i + 1, 0) =~= acc + (seq![d] + kept_descriptions(
                table.subrange(i + 1, table.len() as int),
            )));
        } else if p + 1 < pc {
            lemma_walk_from(table, pc, i, p + 1, acc);
        } else {
            assert(sub.drop_first().len() == 0);
            assert(first_nonempty(sub.drop_first()) is None);
            assert(first_nonempty(sub) is None);
            assert(Seq::<Seq<char>>::empty() + kept_descriptions(table.subrange(i + 1, table.len() as int))
                =~= kept_descriptions(table.subrange(i + 1, table.len() as int)));
            lemma_walk_from(table, pc, i + 1, 0, acc);
            lemma_rest_from_start(table, pc, i + 1);
            assert(rest_from(table, pc, i, p) =~= kept_descriptions(table.subrange(i + 1, table.len() as int)));
        }
    }
}

/// A whole walk keeps, for each image in order, the first non-empty
/// description among the providers in order, and nothing for an image no
/// provider described: starting at the first image and provider with
/// nothing held, the steps of `on_reply` end holding `kept_descriptions`.
pub proof fn lemma_walk_keeps_first_descriptions(table: Seq<Seq<Seq<char>>>, pc: nat)
    requires
        pc > 0,
        forall|k: int| 0 <= k < table.len() ==> (#[trigger] table[k]).len() == pc,
    ensures
        walk_from(table, pc, 0, 0, Seq::empty()) == kept_descriptions(table),
{
    lemma_walk_from(table, pc, 0, 0, Seq::empty());
    lemma_rest_from_start(table, pc, 0);
    assert(table.subrange(0, table.len() as int) =~= table);
    if table.len() == 0 {
        assert(Seq::<Seq<char>>::empty() + Seq::<Seq<char>>::empty() =~= Seq::<Seq<char>>::empty());
    } else {
        assert(Seq::<Seq<char>>::empty() + rest_from(table, pc, 0, 0) =~= rest_from(table, pc, 0, 0));
    }
}

} // verus!
