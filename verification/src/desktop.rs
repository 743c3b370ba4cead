//! Decisions of the desktop window: what its panels show, what a button
//! leads to, which provider it starts with.
//!
//! The window toolkit, the environment and the stores are driven by the
//! caller, which hands the facts it gathered to these functions.
use vstd::prelude::*;

use crate::envfile::{env_lookup, provider_vars, LOCAL_BASE_URL_VAR};
use crate::message::{ChatMessage, MessageRole, ToolCall};
use crate::provider::ProviderStatus;
use crate::providers::{kind_of_name, kind_name, ProviderKind};
use crate::text::{
    chars_of, concat, concat3, contains_str, decimal, decimal_text, is_blank,
    lemma_split_nonempty, lowercase_text, push_all, push_str, seq_contains, split_chars,
    split_seq, str_eq, string_from_chars, trim_seq, trim_str,
};
use crate::views::ProviderState;

verus! {

/// A short vendor note for a free model, from words in its id.
pub open spec fn model_note(model: Seq<char>) -> Seq<char> {
    if seq_contains(model, "gpt"@) || seq_contains(model, "oss"@) {
        "OpenAI · gratuit"@
    } else if seq_contains(model, "llama"@) {
        "Meta · gratuit"@
    } else if seq_contains(model, "qwen"@) {
        "Alibaba · gratuit"@
    } else if seq_contains(model, "deepseek"@) {
        "DeepSeek · gratuit"@
    } else if seq_contains(model, "gemma"@) {
        "Google · gratuit"@
    } else {
        "modèle gratuit"@
    }
}

/// The vendor note shown under a free model.
pub fn model_info(model: &str) -> (r: String)
    ensures
        r@ == model_note(model@),
{
    if contains_str(model, "gpt") || contains_str(model, "oss") {
        "OpenAI · gratuit".to_string()
    } else if contains_str(model, "llama") {
        "Meta · gratuit".to_string()
    } else if contains_str(model, "qwen") {
        "Alibaba · gratuit".to_string()
    } else if contains_str(model, "deepseek") {
        "DeepSeek · gratuit".to_string()
    } else if contains_str(model, "gemma") {
        "Google · gratuit".to_string()
    } else {
        "modèle gratuit".to_string()
    }
}

/// The models listed in the side panel: those other than the free router,
/// in catalogue order, at most eight.
pub open spec fn listed_models(models: Seq<Seq<char>>) -> Seq<Seq<char>>
    decreases models.len(),
{
    if models.len() == 0 {
        Seq::empty()
    } else {
        let prev = listed_models(models.drop_last());
        if models.last() == crate::openrouter::free_router() || prev.len() >= 8 {
            prev
        } else {
            prev.push(models.last())
        }
    }
}

/// The models the side panel lists, out of the free catalogue's ids.
pub fn side_panel_models(models: &Vec<String>) -> (r: Vec<String>)
    ensures
        r@.map_values(|m: String| m@) == listed_models(models@.map_values(|m: String| m@)),
{
    let ghost all = models@.map_values(|m: String| m@);
    let mut out: Vec<String> = Vec::new();
    let mut i: usize = 0;
    while i < models.len()
        invariant
            i <= models@.len(),
            all == models@.map_values(|m: String| m@),
            out@.map_values(|m: String| m@) == listed_models(all.take(i as int)),
        decreases models.len() - i,
    {
        proof {
            assert(all.take(i + 1 as int).drop_last() =~= all.take(i as int));
            assert(all.take(i + 1 as int).last() == models@[i as int]@);
        }
        let skip = str_eq(models[i].as_str(), "openrouter/free") || out.len() >= 8;
        proof {
            reveal_strlit("openrouter/free");
        }
        if !skip {
            let ghost before = out@;
            out.push(models[i].clone());
            assert(out@.map_values(|m: String| m@) =~= before.map_values(|m: String| m@).push(
                models@[i as int]@,
            ));
        }
        i = i + 1;
    }
    assert(all.take(models@.len() as int) =~= all);
    out
}

/// The name a model is shown under: the part of its id after the last
/// `/` (the whole id without one).
pub open spec fn short_model_name(model: Seq<char>) -> Seq<char> {
    split_seq(model, '/').last()
}

/// The row title of a listed free model: its short name, marked free.
pub fn free_model_title(model: &str) -> (r: String)
    ensures
        r@ == short_model_name(model@) + " (free)"@,
{
    let chars = chars_of(model);
    let parts = split_chars(&chars, '/');
    proof {
        lemma_split_nonempty(model@, '/');
    }
    let last = &parts[parts.len() - 1];
    let mut out: Vec<char> = Vec::new();
    push_all(&mut out, last);
    push_str(&mut out, " (free)");
    string_from_chars(&out)
}

/// What the configuration panel of a provider shows.
#[derive(Debug, Clone)]
pub struct ProviderPanelView {
    /// Only the demo caption, nothing to configure.
    pub demo_only: bool,
    /// The captions above the key field, in order.
    pub captions: Vec<String>,
    /// Placeholder of the key field.
    pub key_placeholder: String,
    /// Label of the button that shows or hides the key.
    pub key_toggle: String,
    /// Whether a base-URL field is shown.
    pub base_url_field: bool,
    /// Placeholder of the model field.
    pub model_placeholder: String,
    /// Caption under the model field, if any.
    pub catalogue_caption: Option<String>,
}

/// The configuration panel of the provider `name`: the demo has nothing to
/// configure; OpenRouter notes the free-only rule and, once its catalogue
/// is known, how many free models it holds; each provider shows whether its
/// key is saved, the key field (in clear when asked), a base URL for the
/// local server, and the model field.
pub fn provider_panel(name: &str, key_set: bool, show_key: bool, free_models: Option<usize>) -> (r:
    ProviderPanelView)
    ensures
        r.demo_only == (name@ == "mock"@),
        name@ == "mock"@ ==> r.captions@.len() == 1 && r.captions@[0]@ == "Mode démo."@,
        name@ != "mock"@ ==> r.captions@.map_values(|c: String| c@) == (if name@ == "openrouter"@ {
            seq!["Free only : seuls les modèles gratuits seront utilisés."@]
        } else {
            Seq::<Seq<char>>::empty()
        }).push(
            if key_set {
                "Clé API : enregistrée"@
            } else {
                "Clé API : absente"@
            },
        ),
        r.key_placeholder@ == (if show_key {
            "sk-…"@
        } else {
            "Coller la clé API…"@
        }),
        r.key_toggle@ == (if show_key {
            "masquer"@
        } else {
            "voir"@
        }),
        r.base_url_field == (name@ == "local"@),
        r.model_placeholder@ == (if name@ == "openrouter"@ {
            "openrouter/free"@
        } else {
            "modèle (optionnel)"@
        }),
        match r.catalogue_caption {
            Some(c) => name@ == "openrouter"@ && free_models is Some && c@ == decimal(
                free_models->0 as nat,
            ) + " modèles gratuits"@,
            None => name@ != "openrouter"@ || free_models is None,
        },
{
    let is_mock = str_eq(name, "mock");
    let is_openrouter = str_eq(name, "openrouter");
    let mut captions: Vec<String> = Vec::new();
    if is_mock {
        captions.push("Mode démo.".to_string());
    } else {
        if is_openrouter {
            captions.push("Free only : seuls les modèles gratuits seront utilisés.".to_string());
        }
        let key = if key_set {
            "Clé API : enregistrée".to_string()
        } else {
            "Clé API : absente".to_string()
        };
        let ghost before = captions@;
        captions.push(key);
        assert(captions@.map_values(|c: String| c@) =~= before.map_values(|c: String| c@).push(
            if key_set {
                "Clé API : enregistrée"@
            } else {
                "Clé API : absente"@
            },
        ));
        assert(before.map_values(|c: String| c@) =~= (if name@ == "openrouter"@ {
            seq!["Free only : seuls les modèles gratuits seront utilisés."@]
        } else {
            Seq::<Seq<char>>::empty()
        }));
    }
    let catalogue_caption = match free_models {
        Some(n) => if is_openrouter {
            Some(concat(decimal_text(n).as_str(), " modèles gratuits"))
        } else {
            None
        },
        None => None,
    };
    ProviderPanelView {
        demo_only: is_mock,
        captions,
        key_placeholder: if show_key {
            "sk-…".to_string()
        } else {
            "Coller la clé API…".to_string()
        },
        key_toggle: if show_key {
            "masquer".to_string()
        } else {
            "voir".to_string()
        },
        base_url_field: str_eq(name, "local"),
        model_placeholder: if is_openrouter {
            "openrouter/free".to_string()
        } else {
            "modèle (optionnel)".to_string()
        },
        catalogue_caption,
    }
}

/// The label of the active model: the free router under a friendly
/// name, a placeholder when no model is set.
pub fn active_model_label(provider: &str, model: &str) -> (r: String)
    ensures
        r@ == (if provider@ == "openrouter"@ && model@ == "openrouter/free"@ {
            "Automatic — Free"@
        } else if model@.len() == 0 {
            "modèle par défaut"@
        } else {
            model@
        }),
{
    if str_eq(provider, "openrouter") && str_eq(model, "openrouter/free") {
        "Automatic — Free".to_string()
    } else if model.is_empty() {
        "modèle par défaut".to_string()
    } else {
        model.to_string()
    }
}

/// Who a chat bubble is from.
pub open spec fn author_label(role: MessageRole) -> Seq<char> {
    match role {
        MessageRole::User => "Vous"@,
        MessageRole::Assistant => "SoryOS"@,
        MessageRole::Tool => "Outil"@,
        MessageRole::System => "Système"@,
    }
}

/// Who a chat bubble is from.
pub fn bubble_label(role: MessageRole) -> (r: &'static str)
    ensures
        r@ == author_label(role),
{
    match role {
        MessageRole::User => "Vous",
        MessageRole::Assistant => "SoryOS",
        MessageRole::Tool => "Outil",
        MessageRole::System => "Système",
    }
}

/// The caption of a tool call in a bubble: `outil: {name} {arguments}`.
pub fn call_caption(call: &ToolCall) -> (r: String)
    ensures
        r@ == "outil: "@ + call.name@ + " "@ + crate::json::compact_text(call.arguments),
{
    let args = crate::json::json_to_string(&call.arguments);
    let head = concat("outil: ", call.name.as_str());
    concat3(head.as_str(), " ", args.as_str())
}

/// What the history list says when it shows nothing.
pub fn history_placeholder(filter: &str) -> (r: &'static str)
    ensures
        r@ == (if trim_seq(filter@).len() == 0 {
            "Aucune conversation."@
        } else {
            "Aucun résultat."@
        }),
{
    if is_blank(filter) {
        "Aucune conversation."
    } else {
        "Aucun résultat."
    }
}

/// The question of the confirmation card.
pub fn confirm_prompt(tool: &str) -> (r: String)
    ensures
        r@ == "L'assistant veut exécuter « "@ + tool@ + " »."@,
{
    concat3("L'assistant veut exécuter « ", tool, " ».")
}

/// A provider row of the settings panel.
#[derive(Debug, Clone)]
pub struct ProviderLite {
    pub name: String,
    pub status: String,
    pub active: bool,
}

/// The provider rows: each state's name and status label, marking the
/// active provider.
pub fn provider_lites(states: &Vec<ProviderState>, active: &str) -> (r: Vec<ProviderLite>)
    ensures
        r@.len() == states@.len(),
        forall|k: int|
            0 <= k < r@.len() ==> (#[trigger] r@[k]).name == states@[k].name && r@[k].status@
                == states@[k].status.label_view() && r@[k].active == (states@[k].name@ == active@),
{
    let mut out: Vec<ProviderLite> = Vec::new();
    let mut i: usize = 0;
    while i < states.len()
        invariant
            i <= states@.len(),
            out@.len() == i,
            forall|k: int|
                0 <= k < i ==> (#[trigger] out@[k]).name == states@[k].name && out@[k].status@
                    == states@[k].status.label_view() && out@[k].active == (states@[k].name@ == active@),
        decreases states.len() - i,
    {
        let s = &states[i];
        out.push(
            ProviderLite {
                name: s.name.clone(),
                status: s.status.label().to_string(),
                active: str_eq(s.name.as_str(), active),
            },
        );
        i = i + 1;
    }
    out
}

/// Marks the active provider among the rows.
pub fn mark_active(rows: &mut Vec<ProviderLite>, active: &str)
    ensures
        final(rows)@.len() == old(rows)@.len(),
        forall|k: int|
            0 <= k < final(rows)@.len() ==> (#[trigger] final(rows)@[k]).name == old(rows)@[k].name
                && final(rows)@[k].status == old(rows)@[k].status && final(rows)@[k].active == (
            old(rows)@[k].name@ == active@),
{
    let mut i: usize = 0;
    while i < rows.len()
        invariant
            i <= rows@.len(),
            rows@.len() == old(rows)@.len(),
            forall|k: int|
                0 <= k < rows@.len() ==> (#[trigger] rows@[k]).name == old(rows)@[k].name
                    && rows@[k].status == old(rows)@[k].status,
            forall|k: int| 0 <= k < i ==> (#[trigger] rows@[k]).active == (old(rows)@[k].name@ == active@),
            forall|k: int| i <= k < rows@.len() ==> (#[trigger] rows@[k]).active == old(rows)@[k].active,
        decreases rows.len() - i,
    {
        let row = ProviderLite {
            name: rows[i].name.clone(),
            status: rows[i].status.clone(),
            active: str_eq(rows[i].name.as_str(), active),
        };
        rows.set(i, row);
        i = i + 1;
    }
}

/// Model and base URL the provider panel opens with: for the local
/// server, the file's `LOCAL_AI_MODEL` (default `qwen2.5:7b`) and base URL
/// (default Ollama's); for others, the file's model variable and no URL.
/// The active provider's current model wins over the file's.
pub open spec fn panel_defaults_view(
    name: Seq<char>,
    stored: Seq<(Seq<char>, Seq<char>)>,
    active_provider: Seq<char>,
    active_model: Seq<char>,
) -> (Seq<char>, Seq<char>) {
    let (model_default, base_default) = if name == "local"@ {
        (
            match env_lookup(stored, "LOCAL_AI_MODEL"@) {
                Some(m) => m,
                None => "qwen2.5:7b"@,
            },
            match env_lookup(stored, LOCAL_BASE_URL_VAR@) {
                Some(b) => b,
                None => "http://localhost:11434/v1"@,
            },
        )
    } else {
        (
            match provider_vars(name) {
                Some((_, mv)) => match env_lookup(stored, mv) {
                    Some(m) => m,
                    None => seq![],
                },
                None => seq![],
            },
            seq![],
        )
    };
    (
        if active_provider == name && active_model.len() > 0 {
            active_model
        } else {
            model_default
        },
        base_default,
    )
}

/// Model and base URL the provider panel opens with.
pub fn panel_defaults(
    name: &str,
    stored: &Vec<(String, String)>,
    active_provider: &str,
    active_model: &str,
) -> (r: (String, String))
    ensures
        (r.0@, r.1@) == panel_defaults_view(
            name@,
            stored@.map_values(|e: (String, String)| (e.0@, e.1@)),
            active_provider@,
            active_model@,
        ),
{
    proof {
        reveal_strlit("");
    }
    let (model_default, base_default) = if str_eq(name, "local") {
        (
            match crate::envfile::lookup_env(stored, "LOCAL_AI_MODEL") {
                Some(m) => m,
                None => "qwen2.5:7b".to_string(),
            },
            match crate::envfile::lookup_env(stored, LOCAL_BASE_URL_VAR) {
                Some(b) => b,
                None => "http://localhost:11434/v1".to_string(),
            },
        )
    } else {
        (
            match crate::envfile::provider_env_vars(name) {
                Some((_, mv)) => match crate::envfile::lookup_env(stored, mv) {
                    Some(m) => m,
                    None => String::new(),
                },
                None => String::new(),
            },
            String::new(),
        )
    };
    let model = if str_eq(active_provider, name) && !active_model.is_empty() {
        active_model.to_string()
    } else {
        model_default
    };
    (model, base_default)
}

/// The `.env` writes for saving a provider's settings, in order: its key,
/// its model and, for the local server, its base URL, each only when the
/// (trimmed) input is not empty.
pub open spec fn key_writes_view(
    name: Seq<char>,
    key: Seq<char>,
    model: Seq<char>,
    base: Seq<char>,
) -> Seq<(Seq<char>, Seq<char>)> {
    match provider_vars(name) {
        None => seq![],
        Some((kv, mv)) => (if trim_seq(key).len() > 0 {
            seq![(kv, trim_seq(key))]
        } else {
            seq![]
        }) + (if trim_seq(model).len() > 0 {
            seq![(mv, trim_seq(model))]
        } else {
            seq![]
        }) + (if name == "local"@ && trim_seq(base).len() > 0 {
            seq![(LOCAL_BASE_URL_VAR@, trim_seq(base))]
        } else {
            seq![]
        }),
    }
}

/// The `.env` writes for saving a provider's settings.
pub fn key_writes(name: &str, key: &str, model: &str, base: &str) -> (r: Vec<(String, String)>)
    ensures
        r@.map_values(|e: (String, String)| (e.0@, e.1@)) == key_writes_view(name@, key@, model@, base@),
{
    let mut out: Vec<(String, String)> = Vec::new();
    match crate::envfile::provider_env_vars(name) {
        None => {
            assert(out@.map_values(|e: (String, String)| (e.0@, e.1@)) =~= Seq::<
                (Seq<char>, Seq<char>),
            >::empty());
            return out;
        },
        Some((kv, mv)) => {
            let k = trim_str(key);
            let m = trim_str(model);
            let b = trim_str(base);
            let ghost s0 = out@.map_values(|e: (String, String)| (e.0@, e.1@));
            if !k.as_str().is_empty() {
                out.push((kv.to_string(), k));
            }
            let ghost s1 = out@.map_values(|e: (String, String)| (e.0@, e.1@));
            assert(s1 =~= s0 + (if trim_seq(key@).len() > 0 {
                seq![(kv@, trim_seq(key@))]
            } else {
                seq![]
            }));
            if !m.as_str().is_empty() {
                out.push((mv.to_string(), m));
            }
            let ghost s2 = out@.map_values(|e: (String, String)| (e.0@, e.1@));
            assert(s2 =~= s1 + (if trim_seq(model@).len() > 0 {
                seq![(mv@, trim_seq(model@))]
            } else {
                seq![]
            }));
            if str_eq(name, "local") && !b.as_str().is_empty() {
                out.push((LOCAL_BASE_URL_VAR.to_string(), b));
            }
            assert(out@.map_values(|e: (String, String)| (e.0@, e.1@)) =~= s2 + (if name@ == "local"@
                && trim_seq(base@).len() > 0 {
                seq![(LOCAL_BASE_URL_VAR@, trim_seq(base@))]
            } else {
                seq![]
            }));
            out
        },
    }
}

/// Status after saving a provider's key: configured, or saved but not
/// usable.
pub fn saved_key_status(name: &str, ready: bool) -> (r: String)
    ensures
        ready ==> r@ == "« "@ + name@ + " » configuré."@,
        !ready ==> r@ == "Clé enregistrée, « "@ + name@ + " » indisponible."@,
{
    if ready {
        concat3("« ", name, " » configuré.")
    } else {
        concat3("Clé enregistrée, « ", name, " » indisponible.")
    }
}

/// Status after choosing a provider: active, or not configured.
pub fn provider_choice_status(name: &str, ready: bool) -> (r: String)
    ensures
        ready ==> r@ == "Provider actif : "@ + name@,
        !ready ==> r@ == "« "@ + name@ + " » non configuré."@,
{
    if ready {
        concat("Provider actif : ", name)
    } else {
        concat3("« ", name, " » non configuré.")
    }
}

/// After reloading the keys: the provider to switch to (when the current
/// one is not ready and the environment's default is another one) and the
/// status line.
pub fn reload_outcome(count: usize, current: &str, current_ready: bool, best: &str) -> (r: (
    Option<String>,
    String,
))
    ensures
        !current_ready && best@ != current@ ==> (r.0 matches Some(b) && b@ == best@ && r.1@
            == "Clés rechargées ("@ + crate::text::decimal(count as nat) + "). Provider : "@ + best@
            + "."@),
        !(!current_ready && best@ != current@) ==> r.0 is None && r.1@ == "Clés rechargées ("@
            + crate::text::decimal(count as nat) + ")."@,
{
    let n = crate::text::decimal_text(count);
    let head = concat("Clés rechargées (", n.as_str());
    if !current_ready && !str_eq(best, current) {
        let a = concat(head.as_str(), "). Provider : ");
        (Some(best.to_string()), concat(a.as_str(), concat(best, ".").as_str()))
    } else {
        (None, concat(head.as_str(), ")."))
    }
}

/// The content of the last assistant message, if any.
pub open spec fn last_assistant(messages: Seq<ChatMessage>) -> Seq<char>
    decreases messages.len(),
{
    if messages.len() == 0 {
        seq![]
    } else if messages.last().role == MessageRole::Assistant {
        messages.last().content@
    } else {
        last_assistant(messages.drop_last())
    }
}

/// The text the voice button reads aloud: the last assistant message.
pub fn last_assistant_text(messages: &Vec<ChatMessage>) -> (r: String)
    ensures
        r@ == last_assistant(messages@),
{
    let mut n: usize = messages.len();
    assert(messages@.take(n as int) =~= messages@);
    while n > 0
        invariant
            n <= messages@.len(),
            last_assistant(messages@) == last_assistant(messages@.take(n as int)),
        decreases n,
    {
        assert(messages@.take(n as int).drop_last() =~= messages@.take(n - 1));
        if messages[n - 1].role == MessageRole::Assistant {
            return messages[n - 1].content.clone();
        }
        n = n - 1;
    }
    String::new()
}

/// The data directory: `SORYOS_DATA_DIR` when set, else `data`.
pub fn data_dir_from(env_value: Option<String>) -> (r: String)
    ensures
        r@ == match env_value {
            Some(d) => d@,
            None => "data"@,
        },
{
    match env_value {
        Some(d) => d,
        None => "data".to_string(),
    }
}

/// The assignment a line of `.env` holds for start-up loading: blank
/// lines and comments hold none; the key and value are trimmed and the
/// value loses surrounding double, then single quotes; an empty key holds
/// none.
pub open spec fn startup_entry(line: Seq<char>) -> Option<(Seq<char>, Seq<char>)> {
    let l = trim_seq(line);
    if l.len() == 0 || l[0] == '#' {
        None
    } else {
        match crate::text::index_of(l, '=') {
            None => None,
            Some(i) => {
                let k = trim_seq(l.take(i));
                if k.len() == 0 {
                    None
                } else {
                    Some((k, crate::text::trim_char(crate::text::trim_char(trim_seq(l.skip(i + 1)), '"'), '\'')))
                }
            },
        }
    }
}

fn startup_line(line: &Vec<char>) -> (r: Option<(String, String)>)
    ensures
        match r {
            Some((k, v)) => startup_entry(line@) == Some((k@, v@)),
            None => startup_entry(line@) is None,
        },
{
    let l = crate::text::trim_chars(line);
    if l.len() == 0 || l[0] == '#' {
        return None;
    }
    let i = match crate::text::find_char(&l, '=') {
        Some(i) => i,
        None => {
            return None;
        },
    };
    proof {
        crate::text::lemma_index_of_bounds(l@, '=');
    }
    let left = crate::text::chars_upto(&l, i);
    let k = crate::text::trim_chars(&left);
    if k.len() == 0 {
        return None;
    }
    let right = crate::text::chars_from(&l, i + 1);
    let v0 = crate::text::trim_chars(&right);
    let v1 = crate::text::trim_matches_char(&v0, '"');
    let v2 = crate::text::trim_matches_char(&v1, '\'');
    Some((string_from_chars(&k), string_from_chars(&v2)))
}

/// The assignments start-up loading reads from `.env`, in file order (the
/// caller sets those not already in the environment).
pub fn startup_env_entries(text: &str) -> (r: Vec<(String, String)>)
    ensures
        r@.map_values(|e: (String, String)| (e.0@, e.1@)) == crate::text::lines_seq(text@).filter_map(
            |l: Seq<char>| startup_entry(l),
        ),
{
    let chars = crate::text::chars_of(text);
    let lines = crate::text::text_lines(&chars);
    let ghost ls = lines@.map_values(|l: Vec<char>| l@);
    let mut out: Vec<(String, String)> = Vec::new();
    let mut i: usize = 0;
    assert(out@.map_values(|e: (String, String)| (e.0@, e.1@)) =~= ls.take(0).filter_map(
        |l: Seq<char>| startup_entry(l),
    ));
    while i < lines.len()
        invariant
            i <= lines@.len(),
            ls == lines@.map_values(|l: Vec<char>| l@),
            ls == crate::text::lines_seq(text@),
            out@.map_values(|e: (String, String)| (e.0@, e.1@)) == ls.take(i as int).filter_map(
                |l: Seq<char>| startup_entry(l),
            ),
        decreases lines.len() - i,
    {
        proof {
            assert(ls.take(i + 1).drop_last() =~= ls.take(i as int));
            assert(ls.take(i + 1).last() == lines@[i as int]@);
        }
        let ghost before = out@;
        match startup_line(&lines[i]) {
            Some(e) => {
                out.push(e);
                assert(out@.map_values(|e: (String, String)| (e.0@, e.1@)) =~= before.map_values(
                    |e: (String, String)| (e.0@, e.1@),
                ).push((e.0@, e.1@)));
            },
            None => {},
        }
        i = i + 1;
    }
    assert(ls.take(ls.len() as int) =~= ls);
    out
}

/// The provider the window starts with: the saved choice (when not
/// empty) or the configured default, if it is a known kind that is ready;
/// else the environment's default unless that is the mock; else the mock.
pub open spec fn start_provider(
    wanted: Seq<char>,
    states: Seq<ProviderState>,
    env_default: ProviderKind,
) -> ProviderKind {
    match kind_of_name(lowercase_text(trim_seq(wanted))) {
        Some(k) => if exists|i: int|
            0 <= i < states.len() && states[i].name@ == kind_name(k) && states[i].status
                == ProviderStatus::Ready {
            k
        } else if env_default != ProviderKind::Mock {
            env_default
        } else {
            ProviderKind::Mock
        },
        None => if env_default != ProviderKind::Mock {
            env_default
        } else {
            ProviderKind::Mock
        },
    }
}

/// The provider name wanted at start-up: the saved one when not empty,
/// else the configured default.
pub fn wanted_provider(saved: Option<String>, configured: &str) -> (r: String)
    ensures
        r@ == match saved {
            Some(s) => if s@.len() > 0 {
                s@
            } else {
                configured@
            },
            None => configured@,
        },
{
    match saved {
        Some(s) => if !s.as_str().is_empty() {
            s
        } else {
            configured.to_string()
        },
        None => configured.to_string(),
    }
}

/// The provider the window starts with, given the registered providers'
/// states and the environment's default.
pub fn pick_provider(wanted: &str, states: &Vec<ProviderState>, env_default: ProviderKind) -> (r: ProviderKind)
    ensures
        r == start_provider(wanted@, states@, env_default),
{
    match ProviderKind::parse(wanted) {
        Some(k) => {
            let name = k.name();
            let mut i: usize = 0;
            while i < states.len()
                invariant
                    i <= states@.len(),
                    name@ == kind_name(k),
                    kind_of_name(lowercase_text(trim_seq(wanted@))) == Some(k),
                    forall|j: int|
                        0 <= j < i ==> !(states@[j].name@ == kind_name(k) && states@[j].status
                            == ProviderStatus::Ready),
                decreases states.len() - i,
            {
                if str_eq(states[i].name.as_str(), name) && states[i].status == ProviderStatus::Ready {
                    return k;
                }
                i = i + 1;
            }
        },
        None => {},
    }
    if env_default != ProviderKind::Mock {
        env_default
    } else {
        ProviderKind::Mock
    }
}

/// Rendez-vous between a turn waiting for a confirmation and the dialog
/// buttons: a decision clicked before the turn waits is kept for it.
#[derive(Debug)]
pub struct ConfirmSlot {
    waiting: bool,
    pre: Option<bool>,
}

impl ConfirmSlot {
    /// Whether a turn waits for the decision.
    pub closed spec fn is_waiting(&self) -> bool {
        self.waiting
    }

    /// A decision clicked before the turn asked.
    pub closed spec fn early(&self) -> Option<bool> {
        self.pre
    }

    /// Nobody waits, nothing decided.
    pub fn new() -> (r: Self)
        ensures
            !r.is_waiting(),
            r.early() is None,
    {
        ConfirmSlot { waiting: false, pre: None }
    }

    /// A turn asks for the decision: an early decision is taken at once,
    /// else the turn starts waiting.
    pub fn ask(&mut self) -> (r: Option<bool>)
        ensures
            r == old(self).early(),
            final(self).early() is None,
            final(self).is_waiting() == (old(self).early() is None),
    {
        match self.pre {
            Some(d) => {
                self.pre = None;
                self.waiting = false;
                Some(d)
            },
            None => {
                self.waiting = true;
                None
            },
        }
    }

    /// A button is clicked: returns whether the decision goes to a waiting
    /// turn; otherwise it is kept for the next ask.
    pub fn resolve(&mut self, approved: bool) -> (r: bool)
        ensures
            r == old(self).is_waiting(),
            !final(self).is_waiting(),
            r ==> final(self).early() == old(self).early(),
            !r ==> final(self).early() == Some(approved),
    {
        if self.waiting {
            self.waiting = false;
            true
        } else {
            self.pre = Some(approved);
            false
        }
    }
}

/// A tool waiting for the user's decision.
#[derive(Debug, Clone)]
pub struct PendingConfirm {
    pub tool: String,
    pub reason: String,
}

/// What the window does on a tick.
#[derive(Debug)]
pub enum TickAction {
    /// First tick: the greeting was sent through the chat; start this turn
    /// when there is one.
    Greeting(Option<String>),
    /// The window title is set, then queued events are drained.
    SetTitleAndDrain,
    /// Queued events are drained.
    Drain,
}

/// The window's state apart from the toolkit: the chat state machine, the
/// open conversation, the pending turn and confirmation, the panels'
/// inputs and the status line.
#[derive(Debug)]
pub struct GuiSession {
    pub ui: crate::ui::App,
    pub current: crate::conversation::Conversation,
    pub pending_text: Option<String>,
    pub pending_confirm: Option<PendingConfirm>,
    pub status: String,
    pub expanded_provider: Option<String>,
    pub api_key_input: String,
    pub show_key: bool,
    pub provider_model_input: String,
    pub provider_base_url_input: String,
    pub history_filter: String,
    pub models_loading: Option<String>,
    pub models_error: Option<String>,
    pub show_model_selector: bool,
    pub sidebar_visible: bool,
    pub active_nav: String,
    pub smoke_done: bool,
    pub title_set: bool,
}

/// The panels, toggles and confirmation are unchanged.
pub open spec fn keeps_panels(a: GuiSession, b: GuiSession) -> bool {
    &&& b.pending_confirm == a.pending_confirm
    &&& keeps_settings(a, b)
}

/// The panels and toggles are unchanged.
pub open spec fn keeps_settings(a: GuiSession, b: GuiSession) -> bool {
    &&& b.expanded_provider == a.expanded_provider
    &&& b.api_key_input == a.api_key_input
    &&& b.show_key == a.show_key
    &&& b.provider_model_input == a.provider_model_input
    &&& b.provider_base_url_input == a.provider_base_url_input
    &&& b.history_filter == a.history_filter
    &&& b.models_loading == a.models_loading
    &&& b.models_error == a.models_error
    &&& b.show_model_selector == a.show_model_selector
    &&& b.sidebar_visible == a.sidebar_visible
    &&& b.active_nav == a.active_nav
    &&& b.smoke_done == a.smoke_done
    &&& b.title_set == a.title_set
}

impl GuiSession {
    /// A fresh window: a new conversation, the sidebar shown.
    pub fn new(active_nav: String) -> (r: Self)
        ensures
            r.current.title@ == crate::conversation::placeholder_title(),
            r.current.messages@.len() == 0,
            r.pending_text is None,
            r.pending_confirm is None,
            r.status@.len() == 0,
            r.expanded_provider is None,
            r.sidebar_visible,
            !r.show_model_selector,
            !r.smoke_done,
            !r.title_set,
            r.active_nav == active_nav,
    {
        GuiSession {
            ui: crate::ui::App::new(),
            current: crate::conversation::Conversation::new("Nouvelle conversation".to_string()),
            pending_text: None,
            pending_confirm: None,
            status: String::new(),
            expanded_provider: None,
            api_key_input: String::new(),
            show_key: false,
            provider_model_input: String::new(),
            provider_base_url_input: String::new(),
            history_filter: String::new(),
            models_loading: None,
            models_error: None,
            show_model_selector: false,
            sidebar_visible: true,
            active_nav,
            smoke_done: false,
            title_set: false,
        }
    }

    /// The send button: when the chat accepts the input, the turn for its
    /// text starts (its text is returned) and is marked pending.
    pub fn send(&mut self) -> (r: Option<String>)
        ensures
            exists|effect: crate::ui::Effect|
                crate::ui::reduces(
                    old(self).ui.view_state(),
                    crate::ui::UiEvent::SendMessage,
                    final(self).ui.view_state(),
                    effect,
                ) && match effect {
                    crate::ui::Effect::SendToAssistant(t) => r == Some(t) && final(self).pending_text
                        == Some(t) && final(self).status@ == "Génération…"@,
                    _ => r is None && final(self).pending_text == old(self).pending_text
                        && final(self).status == old(self).status,
                },
            final(self).current == old(self).current,
            keeps_panels(*old(self), *final(self)),
    {
        let effect = self.ui.update(crate::ui::UiEvent::SendMessage);
        match effect {
            crate::ui::Effect::SendToAssistant(text) => {
                self.status = "Génération…".to_string();
                self.pending_text = Some(text.clone());
                Some(text)
            },
            _ => None,
        }
    }

    /// A tick: the first one types and sends the greeting; the first one
    /// with a window sets its title; every other one drains events.
    pub fn tick(&mut self, window_ready: bool) -> (r: TickAction)
        ensures
            !old(self).smoke_done ==> final(self).smoke_done && r is Greeting,
            old(self).smoke_done && !old(self).title_set && window_ready ==> final(self).title_set
                && r is SetTitleAndDrain && final(self).ui == old(self).ui,
            old(self).smoke_done && !(!old(self).title_set && window_ready) ==> r is Drain
                && final(self).title_set == old(self).title_set && final(self).ui == old(self).ui,
    {
        if !self.smoke_done {
            self.smoke_done = true;
            self.ui.update(crate::ui::UiEvent::InputChanged("Bonjour".to_string()));
            let turn = self.send();
            return TickAction::Greeting(turn);
        }
        if !self.title_set && window_ready {
            self.title_set = true;
            return TickAction::SetTitleAndDrain;
        }
        TickAction::Drain
    }

    /// The stop button: the pending user text is kept in the conversation
    /// and the chat shows the interruption.
    pub fn stop(&mut self)
        ensures
            final(self).pending_text is None,
            final(self).status@ == "Interrompu."@,
            keeps_panels(*old(self), *final(self)),
            old(self).pending_text matches Some(t) ==> final(self).current.messages@.len() == old(self).current.messages@.len() + 1 && final(self).current.messages@.drop_last() == old(self).current.messages@ && final(self).current.messages@.last().is_plain(
                MessageRole::User,
                t@,
            ) && final(self).current.id == old(self).current.id,
            old(self).pending_text is None ==> final(self).current == old(self).current,
            exists|e: String, effect: crate::ui::Effect|
                e@ == "Interrompu."@ && crate::ui::reduces(
                    old(self).ui.view_state(),
                    crate::ui::UiEvent::StreamError(e),
                    final(self).ui.view_state(),
                    effect,
                ),
    {
        let pending = self.pending_text.take();
        match pending {
            Some(text) => {
                let m = ChatMessage::user(text);
                self.current.push(m);
            },
            None => {},
        }
        self.status = "Interrompu.".to_string();
        let e = "Interrompu.".to_string();
        let ghost ev = e;
        let effect = self.ui.update(crate::ui::UiEvent::StreamError(e));
        assert(crate::ui::reduces(
            old(self).ui.view_state(),
            crate::ui::UiEvent::StreamError(ev),
            self.ui.view_state(),
            effect,
        ));
    }
}

/// Only the chat state machine changed.
pub open spec fn only_ui_changed(a: GuiSession, b: GuiSession) -> bool {
    &&& keeps_panels(a, b)
    &&& b.current == a.current
    &&& b.pending_text == a.pending_text
    &&& b.status == a.status
}

/// Only the status line changed.
pub open spec fn only_status_changed(a: GuiSession, b: GuiSession) -> bool {
    &&& keeps_panels(a, b)
    &&& b.current == a.current
    &&& b.pending_text == a.pending_text
    &&& b.ui == a.ui
}

impl GuiSession {
    /// The chat input changed.
    pub fn input_changed(&mut self, text: String)
        ensures
            only_ui_changed(*old(self), *final(self)),
            exists|effect: crate::ui::Effect|
                crate::ui::reduces(
                    old(self).ui.view_state(),
                    crate::ui::UiEvent::InputChanged(text),
                    final(self).ui.view_state(),
                    effect,
                ),
    {
        let ghost t = text;
        let effect = self.ui.update(crate::ui::UiEvent::InputChanged(text));
        assert(crate::ui::reduces(
            old(self).ui.view_state(),
            crate::ui::UiEvent::InputChanged(t),
            self.ui.view_state(),
            effect,
        ));
    }

    /// A new chat: a fresh conversation, nothing pending, an empty chat.
    pub fn new_chat(&mut self)
        ensures
            keeps_settings(*old(self), *final(self)),
            final(self).pending_confirm is None,
            final(self).current.title@ == crate::conversation::placeholder_title(),
            final(self).current.messages@.len() == 0,
            final(self).pending_text is None,
            final(self).status@.len() == 0,
            exists|effect: crate::ui::Effect|
                crate::ui::reduces(
                    old(self).ui.view_state(),
                    crate::ui::UiEvent::NewConversation,
                    final(self).ui.view_state(),
                    effect,
                ),
    {
        self.reset_conversation();
        self.status = String::new();
    }

    fn reset_conversation(&mut self)
        ensures
            final(self).expanded_provider == old(self).expanded_provider,
            final(self).api_key_input == old(self).api_key_input,
            final(self).show_key == old(self).show_key,
            final(self).provider_model_input == old(self).provider_model_input,
            final(self).provider_base_url_input == old(self).provider_base_url_input,
            final(self).history_filter == old(self).history_filter,
            final(self).models_loading == old(self).models_loading,
            final(self).models_error == old(self).models_error,
            final(self).show_model_selector == old(self).show_model_selector,
            final(self).sidebar_visible == old(self).sidebar_visible,
            final(self).active_nav == old(self).active_nav,
            final(self).smoke_done == old(self).smoke_done,
            final(self).title_set == old(self).title_set,
            final(self).status == old(self).status,
            final(self).current.title@ == crate::conversation::placeholder_title(),
            final(self).current.messages@.len() == 0,
            final(self).pending_text is None,
            final(self).pending_confirm is None,
            exists|effect: crate::ui::Effect|
                crate::ui::reduces(
                    old(self).ui.view_state(),
                    crate::ui::UiEvent::NewConversation,
                    final(self).ui.view_state(),
                    effect,
                ),
    {
        self.current = crate::conversation::Conversation::new("Nouvelle conversation".to_string());
        self.pending_text = None;
        self.pending_confirm = None;
        let effect = self.ui.update(crate::ui::UiEvent::NewConversation);
        assert(crate::ui::reduces(
            old(self).ui.view_state(),
            crate::ui::UiEvent::NewConversation,
            self.ui.view_state(),
            effect,
        ));
    }

    /// A conversation was loaded from the store (or failed to).
    pub fn conversation_loaded(&mut self, loaded: Result<crate::conversation::Conversation, String>)
        ensures
            keeps_panels(*old(self), *final(self)),
            final(self).pending_text == old(self).pending_text,
            match loaded {
                Ok(c) => final(self).current == c && final(self).status == old(self).status && exists|
                    msgs: Vec<ChatMessage>,
                    effect: crate::ui::Effect,
                |
                    msgs@.len() == c.messages@.len() && (forall|k: int|
                        0 <= k < msgs@.len() ==> (#[trigger] msgs@[k]).same_as(c.messages@[k]))
                        && crate::ui::reduces(
                        old(self).ui.view_state(),
                        crate::ui::UiEvent::ConversationOpened { id: c.id, messages: msgs },
                        final(self).ui.view_state(),
                        effect,
                    ),
                Err(e) => final(self).status@ == "Erreur : "@ + e@ && final(self).current == old(self).current && final(self).ui == old(self).ui,
            },
    {
        match loaded {
            Ok(c) => {
                let id = c.id;
                let messages = crate::message::clone_messages(&c.messages);
                let ghost msgs = messages;
                self.current = c;
                let effect = self.ui.update(crate::ui::UiEvent::ConversationOpened { id, messages });
                assert(crate::ui::reduces(
                    old(self).ui.view_state(),
                    crate::ui::UiEvent::ConversationOpened { id, messages: msgs },
                    self.ui.view_state(),
                    effect,
                ));
            },
            Err(e) => {
                self.status = concat("Erreur : ", e.as_str());
            },
        }
    }

    /// The saved conversations were listed.
    pub fn sidebar_loaded(&mut self, rows: Vec<crate::ui::ConversationSummary>)
        ensures
            only_ui_changed(*old(self), *final(self)),
            exists|effect: crate::ui::Effect|
                crate::ui::reduces(
                    old(self).ui.view_state(),
                    crate::ui::UiEvent::ConversationsLoaded(rows),
                    final(self).ui.view_state(),
                    effect,
                ),
    {
        let ghost r = rows;
        let effect = self.ui.update(crate::ui::UiEvent::ConversationsLoaded(rows));
        assert(crate::ui::reduces(
            old(self).ui.view_state(),
            crate::ui::UiEvent::ConversationsLoaded(r),
            self.ui.view_state(),
            effect,
        ));
    }

    /// A provider's panel was clicked: an open panel closes; otherwise it
    /// opens with a cleared key and the given model and base URL, and the
    /// provider is to be selected (returns true).
    pub fn toggle_provider_panel(&mut self, name: String, defaults: (String, String)) -> (r: bool)
        ensures
            (old(self).expanded_provider matches Some(p) && p@ == name@) ==> !r
                && final(self).expanded_provider is None,
            !(old(self).expanded_provider matches Some(p) && p@ == name@) ==> r
                && final(self).expanded_provider == Some(name) && final(self).api_key_input@.len() == 0
                && !final(self).show_key && final(self).provider_model_input == defaults.0
                && final(self).provider_base_url_input == defaults.1,
            final(self).ui == old(self).ui,
            final(self).current == old(self).current,
            final(self).status == old(self).status,
    {
        let same = match &self.expanded_provider {
            Some(p) => str_eq(p.as_str(), name.as_str()),
            None => false,
        };
        if same {
            self.expanded_provider = None;
            return false;
        }
        self.api_key_input = String::new();
        self.show_key = false;
        self.provider_model_input = defaults.0;
        self.provider_base_url_input = defaults.1;
        self.expanded_provider = Some(name);
        true
    }

    /// Progress of a turn.
    pub fn core_event(&mut self, event: crate::assistant::AssistantEvent)
        ensures
            final(self).current == old(self).current,
            final(self).pending_text == old(self).pending_text,
            match event {
                crate::assistant::AssistantEvent::TextChunk(d) => only_ui_changed(
                    *old(self),
                    *final(self),
                ) && exists|effect: crate::ui::Effect|
                    crate::ui::reduces(
                        old(self).ui.view_state(),
                        crate::ui::UiEvent::StreamChunk(d),
                        final(self).ui.view_state(),
                        effect,
                    ),
                crate::assistant::AssistantEvent::ToolRequested { name, .. } => final(self).status@
                    == "Outil : "@ + name@ && keeps_panels(*old(self), *final(self)) && exists|
                    effect: crate::ui::Effect,
                |
                    crate::ui::reduces(
                        old(self).ui.view_state(),
                        crate::ui::UiEvent::ToolCallStarted { name },
                        final(self).ui.view_state(),
                        effect,
                    ),
                crate::assistant::AssistantEvent::ConfirmationRequired { tool, reason } => {
                    &&& final(self).pending_confirm == Some((PendingConfirm { tool, reason }))
                    &&& final(self).ui == old(self).ui
                    &&& final(self).status == old(self).status
                },
                crate::assistant::AssistantEvent::ConfirmationDecided { tool, approved } => {
                    &&& final(self).pending_confirm is None
                    &&& final(self).ui == old(self).ui
                    &&& final(self).status@ == tool@ + (if approved {
                        " approuvé"@
                    } else {
                        " refusé"@
                    })
                },
                crate::assistant::AssistantEvent::ToolCompleted { name, is_error } =>
                    only_status_changed(*old(self), *final(self)) && final(self).status@ == name@ + (
                if is_error {
                    " erreur"@
                } else {
                    " ok"@
                }),
                crate::assistant::AssistantEvent::Done(_) => only_status_changed(
                    *old(self),
                    *final(self),
                ) && final(self).status == old(self).status,
            },
    {
        match event {
            crate::assistant::AssistantEvent::TextChunk(delta) => {
                let ghost d = delta;
                let effect = self.ui.update(crate::ui::UiEvent::StreamChunk(delta));
                assert(crate::ui::reduces(
                    old(self).ui.view_state(),
                    crate::ui::UiEvent::StreamChunk(d),
                    self.ui.view_state(),
                    effect,
                ));
            },
            crate::assistant::AssistantEvent::ToolRequested { name, .. } => {
                self.status = concat("Outil : ", name.as_str());
                let ghost n = name;
                let effect = self.ui.update(crate::ui::UiEvent::ToolCallStarted { name });
                assert(crate::ui::reduces(
                    old(self).ui.view_state(),
                    crate::ui::UiEvent::ToolCallStarted { name: n },
                    self.ui.view_state(),
                    effect,
                ));
            },
            crate::assistant::AssistantEvent::ConfirmationRequired { tool, reason } => {
                self.pending_confirm = Some(PendingConfirm { tool, reason });
            },
            crate::assistant::AssistantEvent::ConfirmationDecided { tool, approved } => {
                self.pending_confirm = None;
                self.status = if approved {
                    concat(tool.as_str(), " approuvé")
                } else {
                    concat(tool.as_str(), " refusé")
                };
            },
            crate::assistant::AssistantEvent::ToolCompleted { name, is_error } => {
                self.status = if is_error {
                    concat(name.as_str(), " erreur")
                } else {
                    concat(name.as_str(), " ok")
                };
            },
            crate::assistant::AssistantEvent::Done(_) => {},
        }
    }

    /// A turn finished: its conversation becomes the open one, nothing is
    /// pending, the status clears and the chat shows the reply or the
    /// error.
    pub fn turn_finished(&mut self, conversation: crate::conversation::Conversation, result: Result<String, String>)
        ensures
            keeps_panels(*old(self), *final(self)),
            final(self).current == conversation,
            final(self).pending_text is None,
            final(self).status@.len() == 0,
            match result {
                Ok(content) => exists|effect: crate::ui::Effect|
                    crate::ui::reduces(
                        old(self).ui.view_state(),
                        crate::ui::UiEvent::StreamDone { content },
                        final(self).ui.view_state(),
                        effect,
                    ),
                Err(e) => exists|effect: crate::ui::Effect|
                    crate::ui::reduces(
                        old(self).ui.view_state(),
                        crate::ui::UiEvent::StreamError(e),
                        final(self).ui.view_state(),
                        effect,
                    ),
            },
    {
        self.current = conversation;
        self.pending_text = None;
        self.status = String::new();
        match result {
            Ok(content) => {
                let ghost c = content;
                let effect = self.ui.update(crate::ui::UiEvent::StreamDone { content });
                assert(crate::ui::reduces(
                    old(self).ui.view_state(),
                    crate::ui::UiEvent::StreamDone { content: c },
                    self.ui.view_state(),
                    effect,
                ));
            },
            Err(e) => {
                let ghost g = e;
                let effect = self.ui.update(crate::ui::UiEvent::StreamError(e));
                assert(crate::ui::reduces(
                    old(self).ui.view_state(),
                    crate::ui::UiEvent::StreamError(g),
                    self.ui.view_state(),
                    effect,
                ));
            },
        }
    }

    /// Model listing started for the open provider panel.
    pub fn models_requested(&mut self, provider: String)
        ensures
            final(self).models_loading == Some(provider),
            final(self).models_error is None,
            final(self).ui == old(self).ui,
            final(self).status == old(self).status,
    {
        self.models_loading = Some(provider);
        self.models_error = None;
    }

    /// Model listing ended, with the error when it failed.
    pub fn models_loaded(&mut self, error: Option<String>)
        ensures
            final(self).models_loading is None,
            final(self).models_error == error,
            final(self).ui == old(self).ui,
            final(self).status == old(self).status,
    {
        self.models_loading = None;
        self.models_error = error;
    }

    /// A model was chosen; `env_error` is the failure of saving it to
    /// `.env`, if that failed.
    pub fn use_model(&mut self, model: String, env_error: Option<String>)
        ensures
            final(self).provider_model_input == model,
            env_error is None ==> final(self).status@ == "Modèle actif : "@ + model@,
            env_error matches Some(e) ==> final(self).status@ == "Modèle actif : "@ + model@ + " (."@
                + e@ + ")"@,
            final(self).ui == old(self).ui,
            final(self).current == old(self).current,
    {
        self.status = match &env_error {
            None => concat("Modèle actif : ", model.as_str()),
            Some(e) => {
                let head = concat3("Modèle actif : ", model.as_str(), " (.");
                concat3(head.as_str(), e.as_str(), ")")
            },
        };
        self.provider_model_input = model;
    }

    /// A conversation was deleted: when it is the open one, a fresh
    /// conversation replaces it (the status is kept).
    pub fn conversation_deleted(&mut self, id: crate::conversation::ConversationId)
        ensures
            final(self).status == old(self).status,
            old(self).current.id == id ==> final(self).current.messages@.len() == 0
                && final(self).pending_text is None && final(self).pending_confirm is None,
            old(self).current.id == id ==> final(self).current.title@
                == crate::conversation::placeholder_title(),
            old(self).current.id == id ==> final(self).ui.view_state().active_id is None
                && final(self).ui.view_state().chat.is_empty_view(),
            old(self).current.id == id ==> exists|effect: crate::ui::Effect|
                crate::ui::reduces(
                    old(self).ui.view_state(),
                    crate::ui::UiEvent::NewConversation,
                    final(self).ui.view_state(),
                    effect,
                ),
            old(self).current.id != id ==> final(self).current == old(self).current && final(self).ui == old(self).ui && final(self).pending_text == old(self).pending_text,
    {
        if self.current.id == id {
            self.reset_conversation();
        }
    }

    /// The voice button: reads the last assistant message aloud when
    /// there is one (returns it), else says there is nothing to read.
    pub fn voice_pressed(&mut self, last: String) -> (r: Option<String>)
        ensures
            last@.len() == 0 ==> r is None && final(self).status@ == "Rien à lire."@ && final(self).ui == old(self).ui,
            last@.len() > 0 ==> r == Some(last) && final(self).status@ == "Lecture…"@ && exists|
                effect: crate::ui::Effect,
            |
                crate::ui::reduces(
                    old(self).ui.view_state(),
                    crate::ui::UiEvent::VoiceStateChanged(crate::voice::VoiceState::Speaking),
                    final(self).ui.view_state(),
                    effect,
                ),
    {
        if last.as_str().is_empty() {
            self.status = "Rien à lire.".to_string();
            return None;
        }
        let effect = self.ui.update(
            crate::ui::UiEvent::VoiceStateChanged(crate::voice::VoiceState::Speaking),
        );
        self.status = "Lecture…".to_string();
        Some(last)
    }

    /// Speech synthesis finished with this many bytes of audio.
    pub fn voice_done(&mut self, bytes: usize)
        ensures
            final(self).status@ == "TTS : "@ + crate::text::decimal(bytes as nat) + " octets."@,
            exists|effect: crate::ui::Effect|
                crate::ui::reduces(
                    old(self).ui.view_state(),
                    crate::ui::UiEvent::VoiceStateChanged(crate::voice::VoiceState::Idle),
                    final(self).ui.view_state(),
                    effect,
                ),
    {
        let n = crate::text::decimal_text(bytes);
        self.status = concat3("TTS : ", n.as_str(), " octets.");
        let effect = self.ui.update(crate::ui::UiEvent::VoiceStateChanged(crate::voice::VoiceState::Idle));
    }

    /// A confirmation button was clicked: the card closes.
    pub fn confirm_clicked(&mut self)
        ensures
            final(self).pending_confirm is None,
            final(self).ui == old(self).ui,
            final(self).status == old(self).status,
            final(self).current == old(self).current,
    {
        self.pending_confirm = None;
    }
}

} // verus!
