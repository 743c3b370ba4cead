//! OpenRouter model catalogue and request guard — FREE ONLY.
//!
//! The catalogue's `pricing` object is the only source of truth (never a
//! `:free` suffix). A request is validated before any generation call:
//! the official free router is always allowed, a known entry must price at
//! exactly zero, and anything unknown is refused. There is no paid
//! fallback.
use vstd::prelude::*;

use crate::json::{
    array_items, json_array_items, json_as_str, json_as_u64, json_get, member, member_str,
    string_content, unsigned_value,
};
use crate::model_policy::{check_free_only, is_zero_price, parse_price, price_of, ModelPricingPolicy};
use crate::provider::ProviderError;
use crate::text::{chars_le, chars_of, lemma_chars_le_total, lemma_chars_le_trans, push_str, str_eq, str_le, string_from_chars};

verus! {

/// Official OpenRouter router across currently free models.
pub open spec fn free_router() -> Seq<char> {
    "openrouter/free"@
}

/// The free router's id.
pub fn free_router_id() -> (r: String)
    ensures
        r@ == free_router(),
{
    "openrouter/free".to_string()
}

/// One catalogue entry with its prices (as `f64` bit patterns).
#[derive(Debug)]
pub struct OpenRouterModel {
    pub id: String,
    pub name: String,
    pub context_length: Option<u64>,
    pub prompt_price_bits: u64,
    pub completion_price_bits: u64,
    /// Whether the model advertises tool calling.
    pub supports_tools: bool,
}

/// What a catalogue entry holds, as plain values.
pub struct ModelEntry {
    pub id: Seq<char>,
    pub name: Seq<char>,
    pub context_length: Option<u64>,
    pub prompt_price_bits: u64,
    pub completion_price_bits: u64,
    pub supports_tools: bool,
}

impl View for OpenRouterModel {
    type V = ModelEntry;

    open spec fn view(&self) -> ModelEntry {
        ModelEntry {
            id: self.id@,
            name: self.name@,
            context_length: self.context_length,
            prompt_price_bits: self.prompt_price_bits,
            completion_price_bits: self.completion_price_bits,
            supports_tools: self.supports_tools,
        }
    }
}

/// The price under `key` of a `pricing` object.
pub open spec fn member_price(pricing: serde_json::Value, key: Seq<char>) -> Option<u64> {
    match member(pricing, key) {
        Some(v) => price_of(v),
        None => None,
    }
}

/// The item lists `"tools"` among its `supported_parameters`.
pub open spec fn has_tools_param(value: serde_json::Value) -> bool {
    match member(value, "supported_parameters"@) {
        Some(p) => match array_items(p) {
            Some(items) => exists|i: int|
                0 <= i < items.len() && string_content(#[trigger] items[i]) == Some("tools"@),
            None => false,
        },
        None => false,
    }
}

/// The entry a catalogue item describes under this id: both prices must be
/// present and readable; the name defaults to the id.
pub open spec fn entry_of(id: Seq<char>, value: serde_json::Value) -> Option<ModelEntry> {
    match member(value, "pricing"@) {
        None => None,
        Some(pricing) => match (member_price(pricing, "prompt"@), member_price(pricing, "completion"@)) {
            (Some(prompt), Some(completion)) => Some(
                ModelEntry {
                    id,
                    name: match member_str(value, "name"@) {
                        Some(n) => n,
                        None => id,
                    },
                    context_length: match member(value, "context_length"@) {
                        Some(c) => unsigned_value(c),
                        None => None,
                    },
                    prompt_price_bits: prompt,
                    completion_price_bits: completion,
                    supports_tools: has_tools_param(value),
                },
            ),
            _ => None,
        },
    }
}

impl Clone for OpenRouterModel {
    fn clone(&self) -> (r: Self)
        ensures
            r == *self,
    {
        OpenRouterModel {
            id: self.id.clone(),
            name: self.name.clone(),
            context_length: self.context_length,
            prompt_price_bits: self.prompt_price_bits,
            completion_price_bits: self.completion_price_bits,
            supports_tools: self.supports_tools,
        }
    }
}

impl OpenRouterModel {
    /// Free iff both prices are exactly zero.
    pub open spec fn free(self) -> bool {
        is_zero_price(self.prompt_price_bits) && is_zero_price(self.completion_price_bits)
    }

    /// Free iff both prices are exactly zero — the single definition used
    /// everywhere (UI filter and request guard alike).
    pub fn is_free(&self) -> (r: bool)
        ensures
            r == self.free(),
    {
        check_free_only(self.id.as_str(), self.prompt_price_bits, self.completion_price_bits).is_ok()
    }

    /// An entry from a catalogue item; `None` when either price is missing
    /// or unparsable (fail closed).
    pub fn from_api(id: String, value: &serde_json::Value) -> (r: Option<Self>)
        ensures
            match r {
                Some(m) => m.id == id && entry_of(id@, *value) == Some(m@),
                None => entry_of(id@, *value) is None,
            },
    {
        let pricing = match json_get(value, "pricing") {
            Some(p) => p,
            None => return None,
        };
        let prompt = match json_get(pricing, "prompt") {
            Some(v) => match parse_price(v) {
                Some(b) => b,
                None => return None,
            },
            None => return None,
        };
        let completion = match json_get(pricing, "completion") {
            Some(v) => match parse_price(v) {
                Some(b) => b,
                None => return None,
            },
            None => return None,
        };
        let name = match json_get(value, "name") {
            Some(v) => match json_as_str(v) {
                Some(n) => n,
                None => id.clone(),
            },
            None => id.clone(),
        };
        let context_length = match json_get(value, "context_length") {
            Some(v) => json_as_u64(v),
            None => None,
        };
        let supports_tools = match json_get(value, "supported_parameters") {
            Some(v) => match json_array_items(v) {
                Some(items) => lists_tools(&items),
                None => false,
            },
            None => false,
        };
        Some(
            OpenRouterModel {
                id,
                name,
                context_length,
                prompt_price_bits: prompt,
                completion_price_bits: completion,
                supports_tools,
            },
        )
    }
}

/// Whether one of these JSON values is the string `"tools"`.
fn lists_tools(items: &Vec<serde_json::Value>) -> (r: bool)
    ensures
        r == exists|i: int| 0 <= i < items@.len() && string_content(#[trigger] items@[i]) == Some("tools"@),
{
    let mut i: usize = 0;
    while i < items.len()
        invariant
            i <= items@.len(),
            forall|j: int| 0 <= j < i ==> string_content(#[trigger] items@[j]) != Some("tools"@),
        decreases items.len() - i,
    {
        match json_as_str(&items[i]) {
            Some(p) => {
                if str_eq(p.as_str(), "tools") {
                    return true;
                }
            },
            None => {},
        }
        i = i + 1;
    }
    false
}

/// `std::time::Instant`, declared for fields; opaque.
#[verifier::external_type_specification]
#[verifier::external_body]
pub struct ExInstant(std::time::Instant);

/// `std::time::Instant::now`. Nothing is claimed about the instant.
#[verifier::external_body]
fn instant_now() -> std::time::Instant {
    std::time::Instant::now()
}

/// `Instant::elapsed`, in whole seconds (`Duration::as_secs`). The answer
/// depends on the clock: nothing is claimed about it.
#[verifier::external_body]
fn elapsed_secs(t: &std::time::Instant) -> u64 {
    t.elapsed().as_secs()
}

/// Catalogue entries are revalidated after this many seconds.
pub const MODELS_TTL_SECS: u64 = 300;

/// Whether a catalogue fetched `elapsed_secs` seconds ago is still fresh:
/// less than the TTL has passed.
pub fn fresh_after(elapsed_secs: u64) -> (r: bool)
    ensures
        r == (elapsed_secs < MODELS_TTL_SECS),
{
    elapsed_secs < MODELS_TTL_SECS
}

/// Position of the first entry with this id.
pub open spec fn is_first_with_id(models: Seq<OpenRouterModel>, id: Seq<char>, k: int) -> bool {
    &&& 0 <= k < models.len()
    &&& models[k].id@ == id
    &&& forall|j: int| 0 <= j < k ==> models[j].id@ != id
}

/// The catalogue holds an entry with this id.
pub open spec fn has_id(models: Seq<OpenRouterModel>, id: Seq<char>) -> bool {
    exists|k: int| 0 <= k < models.len() && models[k].id@ == id
}

/// Dedicated free-model registry.
#[derive(Debug)]
pub struct FreeModelRegistry {
    models: Vec<OpenRouterModel>,
    fetched_at: Option<std::time::Instant>,
}

/// Keeps the free entries.
pub open spec fn free_entry() -> spec_fn(OpenRouterModel) -> bool {
    |m: OpenRouterModel| m.free()
}

impl FreeModelRegistry {
    pub closed spec fn entries(&self) -> Seq<OpenRouterModel> {
        self.models@
    }

    /// The catalogue has been filled by a fetch at some time.
    pub closed spec fn was_fetched(&self) -> bool {
        self.fetched_at is Some
    }

    /// An empty registry that has never been filled.
    pub fn new() -> (r: Self)
        ensures
            r.entries().len() == 0,
            !r.was_fetched(),
    {
        FreeModelRegistry { models: Vec::new(), fetched_at: None }
    }

    /// All entries (free and paid) currently known.
    pub fn all(&self) -> (r: &[OpenRouterModel])
        ensures
            r@ == self.entries(),
    {
        self.models.as_slice()
    }

    /// Only free entries — what the UI may display.
    pub fn free_models(&self) -> (r: Vec<OpenRouterModel>)
        ensures
            r@ == self.entries().filter(free_entry()),
    {
        let mut out: Vec<OpenRouterModel> = Vec::new();
        let mut i: usize = 0;
        while i < self.models.len()
            invariant
                i <= self.models@.len(),
                out@ == self.models@.take(i as int).filter(free_entry()),
            decreases self.models.len() - i,
        {
            proof {
                reveal_with_fuel(Seq::filter, 1);
                assert(self.models@.take(i + 1).drop_last() =~= self.models@.take(i as int));
                assert(self.models@.take(i + 1).last() == self.models@[i as int]);
            }
            if self.models[i].is_free() {
                out.push(self.models[i].clone());
            }
            i = i + 1;
        }
        assert(self.models@.take(self.models@.len() as int) =~= self.models@);
        out
    }

    /// The first entry with this id.
    pub fn find(&self, id: &str) -> (r: Option<&OpenRouterModel>)
        ensures
            match r {
                Some(m) => exists|k: int| is_first_with_id(self.entries(), id@, k) && *m == self.entries()[k],
                None => !has_id(self.entries(), id@),
            },
    {
        let mut i: usize = 0;
        while i < self.models.len()
            invariant
                i <= self.models@.len(),
                forall|j: int| 0 <= j < i ==> self.models@[j].id@ != id@,
            decreases self.models.len() - i,
        {
            if str_eq(self.models[i].id.as_str(), id) {
                assert(is_first_with_id(self.entries(), id@, i as int));
                return Some(&self.models[i]);
            }
            i = i + 1;
        }
        None
    }

    /// True when the entry exists and is priced at zero.
    pub fn is_free(&self, id: &str) -> (r: bool)
        ensures
            r == exists|k: int| is_first_with_id(self.entries(), id@, k) && self.entries()[k].free(),
    {
        match self.find(id) {
            Some(m) => {
                proof {
                    assert forall|k1: int, k2: int|
                        is_first_with_id(self.entries(), id@, k1) && is_first_with_id(
                            self.entries(),
                            id@,
                            k2,
                        ) implies k1 == k2 by {
                        if k1 < k2 {
                            assert(self.entries()[k1].id@ != id@);
                        }
                        if k2 < k1 {
                            assert(self.entries()[k2].id@ != id@);
                        }
                    }
                }
                m.is_free()
            },
            None => false,
        }
    }

    /// Whether the catalogue was fetched less than the TTL ago
    /// (`fresh_after` of the seconds elapsed since the fetch, read from the
    /// clock); a catalogue never fetched is never fresh.
    pub fn is_fresh(&self) -> (r: bool)
        ensures
            r ==> self.was_fetched(),
            !self.was_fetched() ==> !r,
    {
        match &self.fetched_at {
            Some(t) => {
                let elapsed = elapsed_secs(t);
                fresh_after(elapsed)
            },
            None => false,
        }
    }

    /// Replaces the catalogue with a fresh fetch.
    pub fn replace(&mut self, models: Vec<OpenRouterModel>)
        ensures
            final(self).entries() == models@,
            final(self).was_fetched(),
    {
        self.models = models;
        self.fetched_at = Some(instant_now());
    }

    /// Takes in a fetched `GET /models` payload: its priced entries, sorted
    /// by id, become the catalogue.
    pub fn refresh_from(&mut self, data: &serde_json::Value)
        ensures
            final(self).entries().map_values(|m: OpenRouterModel| m@).to_multiset()
                == catalogue_view(*data).to_multiset(),
            final(self).was_fetched(),
            forall|i: int, j: int|
                0 <= i < j < final(self).entries().len() ==> chars_le(
                    #[trigger] final(self).entries()[i].id@,
                    #[trigger] final(self).entries()[j].id@,
                ),
    {
        let parsed = parse_catalogue(data);
        let sorted = sort_by_id(parsed);
        self.replace(sorted);
    }
}

/// The items of a `GET /models` payload (its `data` array).
pub open spec fn catalogue_items(data: serde_json::Value) -> Seq<serde_json::Value> {
    match member(data, "data"@) {
        Some(d) => match array_items(d) {
            Some(items) => items,
            None => seq![],
        },
        None => seq![],
    }
}

/// The entry one item describes, if it has a string id and usable pricing.
pub open spec fn item_entry(item: serde_json::Value) -> Option<ModelEntry> {
    match member_str(item, "id"@) {
        Some(id) => entry_of(id, item),
        None => None,
    }
}

/// The entries a payload describes, in payload order.
pub open spec fn catalogue_view(data: serde_json::Value) -> Seq<ModelEntry> {
    catalogue_items(data).filter_map(|item: serde_json::Value| item_entry(item))
}

/// Parse every priced entry of a `GET /models` payload. Entries without
/// usable pricing or without a string id are dropped (fail closed).
pub fn parse_catalogue(data: &serde_json::Value) -> (r: Vec<OpenRouterModel>)
    ensures
        r@.map_values(|m: OpenRouterModel| m@) == catalogue_view(*data),
{
    let mut out: Vec<OpenRouterModel> = Vec::new();
    let items = match json_get(data, "data") {
        Some(d) => match json_array_items(d) {
            Some(items) => items,
            None => {
                assert(out@.map_values(|m: OpenRouterModel| m@) =~= catalogue_view(*data));
                return out;
            },
        },
        None => {
            assert(out@.map_values(|m: OpenRouterModel| m@) =~= catalogue_view(*data));
            return out;
        },
    };
    assert(items@ == catalogue_items(*data));
    let mut i: usize = 0;
    assert(out@.map_values(|m: OpenRouterModel| m@) =~= items@.take(0).filter_map(
        |item: serde_json::Value| item_entry(item),
    ));
    while i < items.len()
        invariant
            i <= items@.len(),
            items@ == catalogue_items(*data),
            out@.map_values(|m: OpenRouterModel| m@) == items@.take(i as int).filter_map(
                |item: serde_json::Value| item_entry(item),
            ),
        decreases items.len() - i,
    {
        let ghost before = out@;
        proof {
            assert(items@.take(i + 1).drop_last() =~= items@.take(i as int));
            assert(items@.take(i + 1).last() == items@[i as int]);
        }
        let id = match json_get(&items[i], "id") {
            Some(v) => json_as_str(v),
            None => None,
        };
        match id {
            Some(id) => match OpenRouterModel::from_api(id, &items[i]) {
                Some(m) => {
                    out.push(m);
                    assert(out@.map_values(|m: OpenRouterModel| m@) =~= before.map_values(
                        |m: OpenRouterModel| m@,
                    ).push(m@));
                },
                None => {},
            },
            None => {},
        }
        i = i + 1;
    }
    assert(items@.take(items@.len() as int) =~= items@);
    out
}

/// The entries ordered by id (a stable sort, as the catalogue refresh
/// does): the same entries, each as often, ascending by id.
pub fn sort_by_id(models: Vec<OpenRouterModel>) -> (r: Vec<OpenRouterModel>)
    ensures
        r@.map_values(|m: OpenRouterModel| m@).to_multiset() == models@.map_values(
            |m: OpenRouterModel| m@,
        ).to_multiset(),
        forall|i: int, j: int| 0 <= i < j < r@.len() ==> chars_le(#[trigger] r@[i].id@, #[trigger] r@[j].id@),
{
    let mut out: Vec<OpenRouterModel> = Vec::new();
    let mut k: usize = 0;
    assert(out@.map_values(|m: OpenRouterModel| m@) =~= models@.take(0).map_values(
        |m: OpenRouterModel| m@,
    ));
    while k < models.len()
        invariant
            k <= models@.len(),
            out@.map_values(|m: OpenRouterModel| m@).to_multiset() == models@.take(k as int).map_values(
                |m: OpenRouterModel| m@,
            ).to_multiset(),
            forall|i: int, j: int| 0 <= i < j < out@.len() ==> chars_le(#[trigger] out@[i].id@, #[trigger] out@[j].id@),
        decreases models.len() - k,
    {
        let x = models[k].clone();
        let mut p: usize = 0;
        while p < out.len() && str_le(out[p].id.as_str(), x.id.as_str())
            invariant
                p <= out@.len(),
                forall|i: int| 0 <= i < p ==> chars_le(#[trigger] out@[i].id@, x.id@),
            decreases out.len() - p,
        {
            p = p + 1;
        }
        proof {
            if p < out@.len() {
                lemma_chars_le_total(out@[p as int].id@, x.id@);
                assert forall|j: int| p <= j < out@.len() implies chars_le(x.id@, #[trigger] out@[j].id@) by {
                    if j > p {
                        lemma_chars_le_trans(x.id@, out@[p as int].id@, out@[j].id@);
                    }
                }
            }
        }
        let ghost before = out@;
        out.insert(p, x);
        proof {
            assert(out@.map_values(|m: OpenRouterModel| m@) =~= before.map_values(
                |m: OpenRouterModel| m@,
            ).insert(p as int, x@));
            vstd::seq_lib::to_multiset_insert(before.map_values(|m: OpenRouterModel| m@), p as int, x@);
            assert(models@.take(k + 1).map_values(|m: OpenRouterModel| m@) =~= models@.take(
                k as int,
            ).map_values(|m: OpenRouterModel| m@).push(x@));
            vstd::seq_lib::to_multiset_build(
                models@.take(k as int).map_values(|m: OpenRouterModel| m@),
                x@,
            );
            assert forall|i: int, j: int| 0 <= i < j < out@.len() implies chars_le(
                #[trigger] out@[i].id@,
                #[trigger] out@[j].id@,
            ) by {
                if j < p {
                    assert(out@[i] == before[i] && out@[j] == before[j]);
                } else if j == p {
                    assert(out@[i] == before[i]);
                } else if i == p {
                    assert(out@[j] == before[j - 1]);
                } else if i < p {
                    assert(out@[i] == before[i] && out@[j] == before[j - 1]);
                    lemma_chars_le_trans(before[i].id@, x.id@, before[j - 1].id@);
                } else {
                    assert(out@[i] == before[i - 1] && out@[j] == before[j - 1]);
                }
            }
        }
        k = k + 1;
    }
    assert(models@.take(models@.len() as int) =~= models@);
    out
}

/// OpenRouter configuration.
#[derive(Debug, Clone)]
pub struct OpenRouterConfig {
    pub enabled: bool,
    pub pricing_policy: ModelPricingPolicy,
    pub default_model: String,
    pub dynamic_model_list: bool,
    pub allow_paid_models: bool,
}

/// Default model: the free router.
pub fn default_free_router() -> (r: String)
    ensures
        r@ == free_router(),
{
    free_router_id()
}

impl Default for OpenRouterConfig {
    fn default() -> (r: Self)
        ensures
            r.enabled,
            r.pricing_policy == ModelPricingPolicy::FreeOnly,
            r.default_model@ == free_router(),
            r.dynamic_model_list,
            !r.allow_paid_models,
    {
        OpenRouterConfig {
            enabled: true,
            pricing_policy: ModelPricingPolicy::FreeOnly,
            default_model: default_free_router(),
            dynamic_model_list: true,
            allow_paid_models: false,
        }
    }
}

/// Why a model may not be used.
#[derive(Debug, Clone)]
pub enum ModelRejection {
    /// A known entry with a non-zero price (prices as `f64` bits).
    NotFree { model: String, prompt_bits: u64, completion_bits: u64 },
    /// Any other refusal, with the provider error to report.
    Blocked(ProviderError),
}

/// The guard's outcome for a model on a given catalogue, given whether
/// tools are requested, the message of a failed catalogue refresh (if
/// the refresh failed) and whether the catalogue is fresh afterwards.
pub open spec fn guard_allows(
    models: Seq<OpenRouterModel>,
    model: Seq<char>,
    tools_requested: bool,
    refresh_failed: bool,
    fresh: bool,
) -> bool {
    if model == free_router() {
        true
    } else if refresh_failed && !fresh {
        false
    } else {
        exists|k: int|
            is_first_with_id(models, model, k) && models[k].free() && (tools_requested
                ==> models[k].supports_tools)
    }
}

/// Text of the refusal for an unverified model.
pub open spec fn not_verified_message(model: Seq<char>) -> Seq<char> {
    model + " is not a verified free OpenRouter model"@
}

/// Text of the refusal when the catalogue could not be refreshed and is
/// stale, given the refresh failure's text.
pub open spec fn unreachable_message(error: Seq<char>) -> Seq<char> {
    "cannot verify free-only policy (catalogue unreachable: "@ + error + "); request blocked"@
}

/// Text of the refusal for a free model without tool support when tools
/// are requested.
pub open spec fn no_tools_message(model: Seq<char>) -> Seq<char> {
    "No compatible free model is currently available: '"@ + model
        + "' is free but does not support tool calling, and paid models are forbidden"@
}

/// The guard's answer `r` for a model on a catalogue, given whether tools
/// are requested, the failure of the catalogue refresh attempted for this
/// request (if any) and whether the catalogue is fresh.
pub open spec fn guard_outcome(
    models: Seq<OpenRouterModel>,
    model: Seq<char>,
    tools_requested: bool,
    refresh_error: Option<ProviderError>,
    fresh: bool,
    r: Result<(), ModelRejection>,
) -> bool {
    if model == free_router() {
        r is Ok
    } else if refresh_error is Some && !fresh {
        r matches Err(ModelRejection::Blocked(ProviderError::Api(m))) && m@ == unreachable_message(
            refresh_error->0.message_view(),
        )
    } else if !has_id(models, model) {
        r matches Err(ModelRejection::Blocked(ProviderError::ModelNotFree(m))) && m@
            == not_verified_message(model)
    } else {
        forall|k: int|
            #[trigger] is_first_with_id(models, model, k) ==> if !models[k].free() {
                r matches Err(ModelRejection::NotFree { model: m, prompt_bits: p, completion_bits: c })
                    && m@ == model && p == models[k].prompt_price_bits && c
                    == models[k].completion_price_bits
            } else if tools_requested && !models[k].supports_tools {
                r matches Err(ModelRejection::Blocked(ProviderError::Api(m))) && m@
                    == no_tools_message(model)
            } else {
                r is Ok
            }
    }
}

/// The first entry with an id is unique.
proof fn lemma_first_with_id_unique(models: Seq<OpenRouterModel>, id: Seq<char>, k1: int, k2: int)
    requires
        is_first_with_id(models, id, k1),
        is_first_with_id(models, id, k2),
    ensures
        k1 == k2,
{
    if k1 < k2 {
        assert(models[k1].id@ != id);
    }
    if k2 < k1 {
        assert(models[k2].id@ != id);
    }
}

/// Whether a request must refresh the catalogue before the guard decides:
/// anything but the free router, on a catalogue that is not fresh.
pub fn needs_refresh(model: &str, fresh: bool) -> (r: bool)
    ensures
        r == (model@ != free_router() && !fresh),
{
    !str_eq(model, "openrouter/free") && !fresh
}

/// The free-only decision on a catalogue whose freshness is given: the free
/// router passes; after a failed refresh a stale catalogue refuses
/// everything else; otherwise the first entry with the model's id decides
/// (unknown: not verified; priced: not free; free without the tools that
/// are requested: refused). There is no paid fallback.
pub fn guard_model(
    registry: &FreeModelRegistry,
    model: &str,
    tools_requested: bool,
    refresh_error: Option<ProviderError>,
    fresh: bool,
) -> (r: Result<(), ModelRejection>)
    ensures
        guard_outcome(registry.entries(), model@, tools_requested, refresh_error, fresh, r),
        model@ != free_router() ==> (r is Ok <==> guard_allows(
            registry.entries(),
            model@,
            tools_requested,
            refresh_error is Some,
            fresh,
        )),
{
    proof {
        reveal_strlit("openrouter/free");
    }
    if str_eq(model, "openrouter/free") {
        return Ok(());
    }
    match &refresh_error {
        Some(e) => {
            if !fresh {
                let mut msg: Vec<char> = Vec::new();
                push_str(&mut msg, "cannot verify free-only policy (catalogue unreachable: ");
                let text = e.message();
                push_str(&mut msg, text.as_str());
                push_str(&mut msg, "); request blocked");
                return Err(ModelRejection::Blocked(ProviderError::Api(string_from_chars(&msg))));
            }
        },
        None => {},
    }
    match registry.find(model) {
        Some(entry) => {
            let ghost k0 = choose|k: int|
                is_first_with_id(registry.entries(), model@, k) && *entry == registry.entries()[k];
            proof {
                assert forall|k: int| #[trigger]
                    is_first_with_id(registry.entries(), model@, k) implies k == k0 by {
                    lemma_first_with_id_unique(registry.entries(), model@, k, k0);
                }
            }
            if entry.is_free() {
                if tools_requested && !entry.supports_tools {
                    let mut msg: Vec<char> = Vec::new();
                    push_str(&mut msg, "No compatible free model is currently available: '");
                    push_str(&mut msg, model);
                    push_str(
                        &mut msg,
                        "' is free but does not support tool calling, and paid models are forbidden",
                    );
                    return Err(ModelRejection::Blocked(ProviderError::Api(string_from_chars(&msg))));
                }
                Ok(())
            } else {
                Err(
                    ModelRejection::NotFree {
                        model: model.to_string(),
                        prompt_bits: entry.prompt_price_bits,
                        completion_bits: entry.completion_price_bits,
                    },
                )
            }
        },
        None => {
            let mut msg = chars_of(model);
            push_str(&mut msg, " is not a verified free OpenRouter model");
            Err(ModelRejection::Blocked(ProviderError::ModelNotFree(string_from_chars(&msg))))
        },
    }
}

/// The request guard: revalidates the free-only policy before any
/// generation call. `refresh_error` is the failure of the catalogue
/// refresh attempted for this request, if any; the registry's freshness is
/// read here (it depends on the clock), and a stale catalogue is never used
/// to authorize.
pub fn validate_model(
    registry: &FreeModelRegistry,
    model: &str,
    tools_requested: bool,
    refresh_error: Option<ProviderError>,
) -> (r: Result<(), ModelRejection>)
    ensures
        exists|fresh: bool|
            (fresh ==> registry.was_fetched()) && #[trigger] guard_outcome(
                registry.entries(),
                model@,
                tools_requested,
                refresh_error,
                fresh,
                r,
            ),
        model@ == free_router() ==> r is Ok,
        r is Ok ==> model@ == free_router() || exists|k: int|
            is_first_with_id(registry.entries(), model@, k) && registry.entries()[k].free() && (
            tools_requested ==> registry.entries()[k].supports_tools),
        model@ != free_router() && refresh_error is None ==> (r is Ok <==> guard_allows(
            registry.entries(),
            model@,
            tools_requested,
            false,
            true,
        )),
        model@ != free_router() && refresh_error is Some && !registry.was_fetched()
            ==> r matches Err(ModelRejection::Blocked(ProviderError::Api(_))),
{
    let fresh = registry.is_fresh();
    let r = guard_model(registry, model, tools_requested, refresh_error, fresh);
    assert(guard_outcome(registry.entries(), model@, tools_requested, refresh_error, fresh, r));
    r
}

/// The model a request uses: its own when set, otherwise the configured
/// default.
pub fn resolve_model(requested: &str, default_model: &str) -> (r: String)
    ensures
        r@ == if requested@.len() == 0 {
            default_model@
        } else {
            requested@
        },
{
    if requested.is_empty() {
        default_model.to_string()
    } else {
        requested.to_string()
    }
}

/// `id` is the id of a free catalogue entry.
pub open spec fn is_free_id(models: Seq<OpenRouterModel>, id: String) -> bool {
    exists|j: int| 0 <= j < models.len() && models[j].free() && #[trigger] models[j].id == id
}

/// The model list offered to the UI: the free router first, then every
/// free catalogue entry; when the catalogue could not be refreshed, the
/// free router alone. Paid models are never listed.
pub fn free_model_list(registry: &FreeModelRegistry, dynamic: bool, refreshed: bool) -> (r: Result<
    Vec<String>,
    ProviderError,
>)
    ensures
        dynamic && !refreshed ==> (r matches Ok(v) && v@.len() == 1 && v@[0]@ == free_router()),
        !(dynamic && !refreshed) ==> (r matches Ok(v) ==> v@.len() == 1 + registry.entries().filter(
            free_entry(),
        ).len() && forall|k: int|
            0 <= k < registry.entries().filter(free_entry()).len() ==> #[trigger] v@[k + 1]
                == registry.entries().filter(free_entry())[k].id),
        r matches Ok(v) ==> v@.len() >= 1 && v@[0]@ == free_router() && (forall|k: int|
            1 <= k < v@.len() ==> is_free_id(registry.entries(), #[trigger] v@[k])),
        !(dynamic && !refreshed) ==> (r is Err <==> registry.entries().filter(free_entry()).len()
            == 0),
{
    if dynamic && !refreshed {
        let mut v: Vec<String> = Vec::new();
        v.push(free_router_id());
        return Ok(v);
    }
    let free = registry.free_models();
    let ghost es = registry.entries();
    let mut v: Vec<String> = Vec::new();
    v.push(free_router_id());
    let mut i: usize = 0;
    while i < free.len()
        invariant
            i <= free@.len(),
            v@.len() == i + 1,
            v@[0]@ == free_router(),
            free@ == es.filter(free_entry()),
            forall|k: int| 0 <= k < i ==> #[trigger] v@[k + 1] == free@[k].id,
        decreases free.len() - i,
    {
        v.push(free[i].id.clone());
        i = i + 1;
    }
    proof {
        assert forall|k: int| 1 <= k < v@.len() implies is_free_id(es, #[trigger] v@[k]) by {
            assert(v@[(k - 1) + 1] == free@[k - 1].id);
            es.lemma_filter_pred(free_entry(), k - 1);
            assert(es.filter(free_entry()).contains(free@[k - 1]));
            es.lemma_filter_contains_rev(free_entry(), free@[k - 1]);
            let j = choose|j: int| 0 <= j < es.len() && es[j] == free@[k - 1];
            assert(es[j].id == v@[k]);
        }
    }
    if v.len() == 1 {
        return Err(
            ProviderError::Api("No free OpenRouter models are currently available.".to_string()),
        );
    }
    Ok(v)
}

/// Free-only law: the guard never lets a paid or unknown model through —
/// whatever is validated is the free router or a catalogue entry whose
/// prompt and completion prices are both exactly zero.
pub proof fn law_guard_is_free_only(
    models: Seq<OpenRouterModel>,
    model: Seq<char>,
    tools_requested: bool,
    refresh_failed: bool,
    fresh: bool,
)
    requires
        guard_allows(models, model, tools_requested, refresh_failed, fresh),
        model != free_router(),
    ensures
        exists|k: int| 0 <= k < models.len() && models[k].id@ == model && is_zero_price(
            models[k].prompt_price_bits,
        ) && is_zero_price(models[k].completion_price_bits),
{
}

/// A `:free` suffix grants nothing: an entry with a non-zero price is not
/// free whatever its id.
pub proof fn law_pricing_is_the_only_source(m: OpenRouterModel)
    requires
        !is_zero_price(m.prompt_price_bits) || !is_zero_price(m.completion_price_bits),
    ensures
        !m.free(),
{
}

} // verus!
