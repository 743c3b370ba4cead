//! Provider kinds, their configuration from environment variables, and the
//! runtime registry of provider instances.
//!
//! The environment is read by the caller into a [`ProviderEnv`]; every
//! decision made from it (which backend, which model, whether it is
//! usable, which one to start with) is taken here.
use vstd::prelude::*;

use crate::openai_compat::OpenAiCompatConfig;
use crate::openrouter::{free_router, free_router_id};
use crate::provider::ProviderStatus;
use crate::text::{
    ascii_lower_char, ascii_lowercase, chars_from, chars_of, chars_upto, find_char, index_of,
    is_ascii_char, is_ascii_text, is_blank, is_ws, lemma_index_of_bounds, lemma_trim_ends,
    lemma_trim_plain, lowercase_text, parse_unsigned, parse_unsigned_text, str_eq, string_from_chars,
    to_lowercase, trim_seq, trim_str,
};
use crate::table::NameTable;
use crate::views::{clone_strings, ProviderState};

verus! {

/// Supported provider kinds.
#[derive(Debug, Clone, Copy, PartialEq, Eq, Structural)]
pub enum ProviderKind {
    OpenRouter,
    Mistral,
    Gemini,
    Local,
    Mock,
}

/// The registry name of a kind.
pub open spec fn kind_name(kind: ProviderKind) -> Seq<char> {
    match kind {
        ProviderKind::OpenRouter => "openrouter"@,
        ProviderKind::Mistral => "mistral"@,
        ProviderKind::Gemini => "gemini"@,
        ProviderKind::Local => "local"@,
        ProviderKind::Mock => "mock"@,
    }
}

/// The kind a (lowercased, trimmed) name or alias designates.
pub open spec fn kind_of_name(name: Seq<char>) -> Option<ProviderKind> {
    if name == "openrouter"@ {
        Some(ProviderKind::OpenRouter)
    } else if name == "mistral"@ {
        Some(ProviderKind::Mistral)
    } else if name == "gemini"@ || name == "google"@ {
        Some(ProviderKind::Gemini)
    } else if name == "local"@ || name == "ollama"@ {
        Some(ProviderKind::Local)
    } else if name == "mock"@ || name == "demo"@ {
        Some(ProviderKind::Mock)
    } else {
        None
    }
}

impl ProviderKind {
    /// Every kind, in registration order.
    pub fn all() -> (r: Vec<ProviderKind>)
        ensures
            r@ == seq![
                ProviderKind::OpenRouter,
                ProviderKind::Mistral,
                ProviderKind::Gemini,
                ProviderKind::Local,
                ProviderKind::Mock,
            ],
    {
        let mut v: Vec<ProviderKind> = Vec::new();
        v.push(ProviderKind::OpenRouter);
        v.push(ProviderKind::Mistral);
        v.push(ProviderKind::Gemini);
        v.push(ProviderKind::Local);
        v.push(ProviderKind::Mock);
        assert(v@ =~= seq![
            ProviderKind::OpenRouter,
            ProviderKind::Mistral,
            ProviderKind::Gemini,
            ProviderKind::Local,
            ProviderKind::Mock,
        ]);
        v
    }

    /// The registry name.
    pub fn name(self) -> (r: &'static str)
        ensures
            r@ == kind_name(self),
    {
        match self {
            ProviderKind::OpenRouter => "openrouter",
            ProviderKind::Mistral => "mistral",
            ProviderKind::Gemini => "gemini",
            ProviderKind::Local => "local",
            ProviderKind::Mock => "mock",
        }
    }

    /// The kind a user-supplied name designates (trimmed, any case;
    /// `google`, `ollama` and `demo` are aliases).
    pub fn parse(name: &str) -> (r: Option<ProviderKind>)
        ensures
            r == kind_of_name(lowercase_text(trim_seq(name@))),
            is_ascii_text(trim_seq(name@)) ==> r == kind_of_name(ascii_lowercase(trim_seq(name@))),
    {
        let t = trim_str(name);
        let lower = to_lowercase(t.as_str());
        let n = lower.as_str();
        if str_eq(n, "openrouter") {
            Some(ProviderKind::OpenRouter)
        } else if str_eq(n, "mistral") {
            Some(ProviderKind::Mistral)
        } else if str_eq(n, "gemini") || str_eq(n, "google") {
            Some(ProviderKind::Gemini)
        } else if str_eq(n, "local") || str_eq(n, "ollama") {
            Some(ProviderKind::Local)
        } else if str_eq(n, "mock") || str_eq(n, "demo") {
            Some(ProviderKind::Mock)
        } else {
            None
        }
    }
}

/// Every kind's registry name parses back to that kind: the name is
/// ASCII, and its trimmed lowercase form designates the kind.
pub proof fn law_kind_names_parse_back(kind: ProviderKind)
    ensures
        is_ascii_text(trim_seq(kind_name(kind))),
        kind_of_name(ascii_lowercase(trim_seq(kind_name(kind)))) == Some(kind),
{
    reveal_strlit("openrouter");
    reveal_strlit("mistral");
    reveal_strlit("gemini");
    reveal_strlit("local");
    reveal_strlit("mock");
    reveal_strlit("google");
    reveal_strlit("ollama");
    reveal_strlit("demo");
    let n = kind_name(kind);
    lemma_trim_plain(n);
    assert(ascii_lowercase(n) =~= n);
    match kind {
        ProviderKind::OpenRouter => {},
        ProviderKind::Mistral => {
            assert(n[0] != "openrouter"@[0]);
        },
        ProviderKind::Gemini => {
            assert(n[0] != "openrouter"@[0]);
            assert(n[0] != "mistral"@[0]);
        },
        ProviderKind::Local => {
            assert(n[0] != "openrouter"@[0]);
            assert(n[0] != "mistral"@[0]);
            assert(n[0] != "gemini"@[0]);
            assert(n[0] != "google"@[0]);
        },
        ProviderKind::Mock => {
            assert(n[0] != "openrouter"@[0]);
            assert(n[1] != "mistral"@[1]);
            assert(n[0] != "gemini"@[0]);
            assert(n[0] != "google"@[0]);
            assert(n[0] != "local"@[0]);
            assert(n[0] != "ollama"@[0]);
        },
    }
}

/// Parsing ignores surrounding whitespace and ASCII case: a name and its
/// trimmed lowercase form designate the same kind (`parse(s)` and
/// `parse(s.trim().to_lowercase())` agree), for every name whose trimmed
/// text is ASCII.
pub proof fn law_parse_ignores_case_and_padding(s: Seq<char>)
    requires
        is_ascii_text(trim_seq(s)),
    ensures
        is_ascii_text(trim_seq(ascii_lowercase(trim_seq(s)))),
        ascii_lowercase(trim_seq(ascii_lowercase(trim_seq(s)))) == ascii_lowercase(trim_seq(s)),
        kind_of_name(ascii_lowercase(trim_seq(ascii_lowercase(trim_seq(s))))) == kind_of_name(
            ascii_lowercase(trim_seq(s)),
        ),
{
    let t = trim_seq(s);
    let x = ascii_lowercase(t);
    lemma_trim_ends(s);
    assert forall|c: char| is_ws(ascii_lower_char(c)) == is_ws(c) by {}
    if x.len() > 0 {
        assert(x[0] == ascii_lower_char(t[0]));
        assert(x.last() == ascii_lower_char(t.last()));
    }
    lemma_trim_plain(x);
    assert forall|i: int| 0 <= i < x.len() implies is_ascii_char(#[trigger] x[i]) by {
        assert(is_ascii_char(t[i]));
    }
    assert(ascii_lowercase(x) =~= x);
}

/// The environment variables the providers read, as found (`None` when
/// unset).
#[derive(Debug, Clone)]
pub struct ProviderEnv {
    pub soryos_provider: Option<String>,
    pub openrouter_api_key: Option<String>,
    pub openrouter_model: Option<String>,
    pub openrouter_base_url: Option<String>,
    pub mistral_api_key: Option<String>,
    pub mistral_model: Option<String>,
    pub mistral_base_url: Option<String>,
    pub gemini_api_key: Option<String>,
    pub gemini_model: Option<String>,
    pub local_base_url: Option<String>,
    pub local_model: Option<String>,
    pub local_api_key: Option<String>,
}

/// A variable's value, or `default` when unset.
pub open spec fn var_or(v: Option<String>, default: Seq<char>) -> Seq<char> {
    match v {
        Some(s) => s@,
        None => default,
    }
}

fn value_or(v: &Option<String>, default: &str) -> (r: String)
    ensures
        r@ == var_or(*v, default@),
{
    match v {
        Some(s) => s.clone(),
        None => default.to_string(),
    }
}

/// Mistral's public endpoint.
pub const MISTRAL_BASE_URL: &'static str = "https://api.mistral.ai/v1";

/// OpenRouter's public endpoint.
pub const OPENROUTER_BASE_URL: &'static str = "https://openrouter.ai/api/v1";

/// Default local server endpoint (Ollama).
pub const LOCAL_DEFAULT_BASE_URL: &'static str = "http://localhost:11434/v1";

/// Backend configuration for Mistral with this key and model: an empty
/// model means `MISTRAL_MODEL`, else `mistral-small-latest`.
pub fn mistral_config(env: &ProviderEnv, api_key: String, model: String) -> (r: OpenAiCompatConfig)
    ensures
        r.provider_name@ == "mistral"@,
        r.base_url@ == var_or(env.mistral_base_url, MISTRAL_BASE_URL@),
        r.api_key == api_key,
        r.default_model@ == (if model@.len() == 0 {
            var_or(env.mistral_model, "mistral-small-latest"@)
        } else {
            model@
        }),
        r.extra_headers@.len() == 0,
        r.timeout_secs == 60,
{
    let default_model = if model.as_str().is_empty() {
        value_or(&env.mistral_model, "mistral-small-latest")
    } else {
        model
    };
    OpenAiCompatConfig {
        provider_name: "mistral".to_string(),
        base_url: value_or(&env.mistral_base_url, MISTRAL_BASE_URL),
        api_key,
        default_model,
        extra_headers: Vec::new(),
        timeout_secs: 60,
    }
}

/// Mistral as configured by the environment.
pub fn mistral_from_env(env: &ProviderEnv) -> (r: OpenAiCompatConfig)
    ensures
        r.provider_name@ == "mistral"@,
        r.api_key@ == var_or(env.mistral_api_key, seq![]),
        r.default_model@ == var_or(env.mistral_model, "mistral-small-latest"@),
        r.base_url@ == var_or(env.mistral_base_url, MISTRAL_BASE_URL@),
{
    proof {
        reveal_strlit("");
    }
    mistral_config(env, value_or(&env.mistral_api_key, ""), value_or(&env.mistral_model, ""))
}

/// A local OpenAI-compatible server as configured by the environment:
/// `LOCAL_AI_BASE_URL` (default Ollama's), `LOCAL_AI_MODEL` (default
/// `qwen2.5:7b`), `LOCAL_AI_API_KEY` (default `ollama`).
pub fn local_from_env(env: &ProviderEnv) -> (r: OpenAiCompatConfig)
    ensures
        r.provider_name@ == "local"@,
        r.base_url@ == var_or(env.local_base_url, LOCAL_DEFAULT_BASE_URL@),
        r.default_model@ == var_or(env.local_model, "qwen2.5:7b"@),
        r.api_key@ == var_or(env.local_api_key, "ollama"@),
        r.extra_headers@.len() == 0,
        r.timeout_secs == 120,
{
    OpenAiCompatConfig {
        provider_name: "local".to_string(),
        base_url: value_or(&env.local_base_url, LOCAL_DEFAULT_BASE_URL),
        api_key: value_or(&env.local_api_key, "ollama"),
        default_model: value_or(&env.local_model, "qwen2.5:7b"),
        extra_headers: Vec::new(),
        timeout_secs: 120,
    }
}

/// The default model OpenRouter uses: `OPENROUTER_MODEL` when set and not
/// blank, else the free router.
pub open spec fn openrouter_default_model(env: ProviderEnv) -> Seq<char> {
    match env.openrouter_model {
        Some(m) => if trim_seq(m@).len() > 0 {
            m@
        } else {
            free_router()
        },
        None => free_router(),
    }
}

/// OpenRouter as configured by the environment and an optional explicit
/// key and model (an empty model keeps the configured default).
pub fn openrouter_config(env: &ProviderEnv, api_key: String, model: String) -> (r: OpenAiCompatConfig)
    ensures
        r.provider_name@ == "openrouter"@,
        r.base_url@ == var_or(env.openrouter_base_url, OPENROUTER_BASE_URL@),
        r.api_key == api_key,
        r.default_model@ == (if model@.len() > 0 {
            model@
        } else {
            openrouter_default_model(*env)
        }),
        r.extra_headers@.len() == 2,
        r.extra_headers@[0].0@ == "HTTP-Referer"@,
        r.extra_headers@[0].1@ == "https://soryos.local/ai-assistant"@,
        r.extra_headers@[1].0@ == "X-Title"@,
        r.extra_headers@[1].1@ == "SoryOS AI Assistant"@,
        r.timeout_secs == 60,
{
    let default_model = if !model.as_str().is_empty() {
        model
    } else {
        match &env.openrouter_model {
            Some(m) => if !is_blank(m.as_str()) {
                m.clone()
            } else {
                free_router_id()
            },
            None => free_router_id(),
        }
    };
    let mut headers: Vec<(String, String)> = Vec::new();
    headers.push(("HTTP-Referer".to_string(), "https://soryos.local/ai-assistant".to_string()));
    headers.push(("X-Title".to_string(), "SoryOS AI Assistant".to_string()));
    OpenAiCompatConfig {
        provider_name: "openrouter".to_string(),
        base_url: value_or(&env.openrouter_base_url, OPENROUTER_BASE_URL),
        api_key,
        default_model,
        extra_headers: headers,
        timeout_secs: 60,
    }
}

/// Status a key gives a keyed provider.
pub open spec fn keyed_status(key: Option<String>) -> ProviderStatus {
    match key {
        Some(k) => if trim_seq(k@).len() > 0 {
            ProviderStatus::Ready
        } else {
            ProviderStatus::NotConfigured
        },
        None => ProviderStatus::NotConfigured,
    }
}

/// The status of a provider built from the environment: the keyed
/// providers need a non-blank key; the local server and the mock are
/// always ready.
pub open spec fn env_status(env: ProviderEnv, kind: ProviderKind) -> ProviderStatus {
    match kind {
        ProviderKind::OpenRouter => keyed_status(env.openrouter_api_key),
        ProviderKind::Mistral => keyed_status(env.mistral_api_key),
        ProviderKind::Gemini => keyed_status(env.gemini_api_key),
        ProviderKind::Local => ProviderStatus::Ready,
        ProviderKind::Mock => ProviderStatus::Ready,
    }
}

fn key_status(key: &Option<String>) -> (r: ProviderStatus)
    ensures
        r == keyed_status(*key),
{
    match key {
        Some(k) => if is_blank(k.as_str()) {
            ProviderStatus::NotConfigured
        } else {
            ProviderStatus::Ready
        },
        None => ProviderStatus::NotConfigured,
    }
}

/// The status of the provider of this kind built from the environment.
pub fn status_from_env(env: &ProviderEnv, kind: ProviderKind) -> (r: ProviderStatus)
    ensures
        r == env_status(*env, kind),
{
    match kind {
        ProviderKind::OpenRouter => key_status(&env.openrouter_api_key),
        ProviderKind::Mistral => key_status(&env.mistral_api_key),
        ProviderKind::Gemini => key_status(&env.gemini_api_key),
        ProviderKind::Local => ProviderStatus::Ready,
        ProviderKind::Mock => ProviderStatus::Ready,
    }
}

/// A default model as a list: empty when there is none.
pub open spec fn listed_model(model: Seq<char>) -> Seq<Seq<char>> {
    if model.len() == 0 {
        seq![]
    } else {
        seq![model]
    }
}

/// The static model list of each provider kind, given the environment.
pub open spec fn env_models(env: ProviderEnv, kind: ProviderKind) -> Seq<Seq<char>> {
    match kind {
        ProviderKind::OpenRouter => seq![free_router()],
        ProviderKind::Mock => seq!["mock-1"@],
        ProviderKind::Gemini => seq![var_or(env.gemini_model, "gemini-2.0-flash"@)],
        ProviderKind::Mistral => listed_model(var_or(env.mistral_model, "mistral-small-latest"@)),
        ProviderKind::Local => listed_model(var_or(env.local_model, "qwen2.5:7b"@)),
    }
}

/// The static model list of the provider of this kind built from the
/// environment.
pub fn models_from_env(env: &ProviderEnv, kind: ProviderKind) -> (r: Vec<String>)
    ensures
        r@.map_values(|m: String| m@) == env_models(*env, kind),
        kind == ProviderKind::OpenRouter ==> r@.len() == 1 && r@[0]@ == free_router(),
        kind == ProviderKind::Mock ==> r@.len() == 1 && r@[0]@ == "mock-1"@,
        kind == ProviderKind::Gemini ==> r@.len() == 1 && r@[0]@ == var_or(
            env.gemini_model,
            "gemini-2.0-flash"@,
        ),
        kind == ProviderKind::Mistral ==> r@.map_values(|m: String| m@) == listed_model(
            var_or(env.mistral_model, "mistral-small-latest"@),
        ),
        kind == ProviderKind::Local ==> r@.map_values(|m: String| m@) == listed_model(
            var_or(env.local_model, "qwen2.5:7b"@),
        ),
{
    match kind {
        ProviderKind::OpenRouter => {
            let mut v: Vec<String> = Vec::new();
            v.push(free_router_id());
            assert(v@.map_values(|m: String| m@) =~= seq![free_router()]);
            v
        },
        ProviderKind::Mistral => {
            let v = mistral_from_env(env).models();
            assert(v@.map_values(|m: String| m@) =~= listed_model(
                var_or(env.mistral_model, "mistral-small-latest"@),
            ));
            v
        },
        ProviderKind::Gemini => {
            let mut v: Vec<String> = Vec::new();
            v.push(value_or(&env.gemini_model, "gemini-2.0-flash"));
            assert(v@.map_values(|m: String| m@) =~= seq![var_or(env.gemini_model, "gemini-2.0-flash"@)]);
            v
        },
        ProviderKind::Local => {
            let v = local_from_env(env).models();
            assert(v@.map_values(|m: String| m@) =~= listed_model(
                var_or(env.local_model, "qwen2.5:7b"@),
            ));
            v
        },
        ProviderKind::Mock => {
            let mut v: Vec<String> = Vec::new();
            v.push("mock-1".to_string());
            assert(v@.map_values(|m: String| m@) =~= seq!["mock-1"@]);
            v
        },
    }
}

/// The state of every provider built from the environment, in kind
/// order: name, status and static model list (no secrets).
pub fn all_provider_states(env: &ProviderEnv) -> (r: Vec<ProviderState>)
    ensures
        r@.len() == 5,
        forall|k: int|
            0 <= k < 5 ==> (#[trigger] r@[k]).name@ == kind_name(ProviderKind::all_spec()[k])
                && r@[k].status == env_status(*env, ProviderKind::all_spec()[k])
                && r@[k].models@.map_values(|m: String| m@) == env_models(*env, ProviderKind::all_spec()[k]),
{
    let kinds = ProviderKind::all();
    let mut out: Vec<ProviderState> = Vec::new();
    let mut i: usize = 0;
    while i < kinds.len()
        invariant
            i <= kinds@.len(),
            kinds@ == ProviderKind::all_spec(),
            out@.len() == i,
            forall|k: int|
                0 <= k < i ==> (#[trigger] out@[k]).name@ == kind_name(kinds@[k]) && out@[k].status
                    == env_status(*env, kinds@[k]) && out@[k].models@.map_values(|m: String| m@)
                    == env_models(*env, kinds@[k]),
        decreases kinds.len() - i,
    {
        let kind = kinds[i];
        out.push(
            ProviderState {
                name: kind.name().to_string(),
                status: status_from_env(env, kind),
                models: models_from_env(env, kind),
            },
        );
        i = i + 1;
    }
    out
}

impl ProviderKind {
    /// Every kind, in registration order.
    pub open spec fn all_spec() -> Seq<ProviderKind> {
        seq![
            ProviderKind::OpenRouter,
            ProviderKind::Mistral,
            ProviderKind::Gemini,
            ProviderKind::Local,
            ProviderKind::Mock,
        ]
    }
}

/// The provider to start with: the one `SORYOS_PROVIDER` names when it is
/// configured, else the first ready of OpenRouter, Mistral and Gemini,
/// else the local server when it answers, else the mock.
pub open spec fn default_kind(env: ProviderEnv, local_reachable: bool) -> ProviderKind {
    let named = match env.soryos_provider {
        Some(n) => kind_of_name(lowercase_text(trim_seq(n@))),
        None => None,
    };
    if named matches Some(k) && env_status(env, k) != ProviderStatus::NotConfigured {
        named.unwrap()
    } else if env_status(env, ProviderKind::OpenRouter) == ProviderStatus::Ready {
        ProviderKind::OpenRouter
    } else if env_status(env, ProviderKind::Mistral) == ProviderStatus::Ready {
        ProviderKind::Mistral
    } else if env_status(env, ProviderKind::Gemini) == ProviderStatus::Ready {
        ProviderKind::Gemini
    } else if local_reachable {
        ProviderKind::Local
    } else {
        ProviderKind::Mock
    }
}

/// The provider to start with, given whether the local server accepts
/// connections.
pub fn default_provider_kind(env: &ProviderEnv, local_reachable: bool) -> (r: ProviderKind)
    ensures
        r == default_kind(*env, local_reachable),
{
    match &env.soryos_provider {
        Some(n) => match ProviderKind::parse(n.as_str()) {
            Some(k) => {
                if status_from_env(env, k) != ProviderStatus::NotConfigured {
                    return k;
                }
            },
            None => {},
        },
        None => {},
    }
    if status_from_env(env, ProviderKind::OpenRouter) == ProviderStatus::Ready {
        ProviderKind::OpenRouter
    } else if status_from_env(env, ProviderKind::Mistral) == ProviderStatus::Ready {
        ProviderKind::Mistral
    } else if status_from_env(env, ProviderKind::Gemini) == ProviderStatus::Ready {
        ProviderKind::Gemini
    } else if local_reachable {
        ProviderKind::Local
    } else {
        ProviderKind::Mock
    }
}

/// Position of the last `c` in `s`.
pub open spec fn last_index_of(s: Seq<char>, c: char) -> Option<int>
    decreases s.len(),
{
    if s.len() == 0 {
        None
    } else if s.last() == c {
        Some(s.len() - 1)
    } else {
        last_index_of(s.drop_last(), c)
    }
}

/// The `host:port` part of a URL: after `://` when present, up to the
/// first `/`.
pub open spec fn url_authority(base: Seq<char>) -> Seq<char> {
    let after = match scheme_end(base) {
        Some(i) => base.skip(i + 3),
        None => base,
    };
    match index_of(after, '/') {
        Some(j) => after.take(j),
        None => after,
    }
}

/// Position of the first `://`.
pub open spec fn scheme_end(s: Seq<char>) -> Option<int>
    decreases s.len(),
{
    if s.len() < 3 {
        None
    } else if s[0] == ':' && s[1] == '/' && s[2] == '/' {
        Some(0)
    } else {
        match scheme_end(s.drop_first()) {
            Some(i) => Some(i + 1),
            None => None,
        }
    }
}

/// The number a text denotes as a `u16`, as `str::parse::<u16>` reads it.
pub open spec fn parsed_u16(s: Seq<char>) -> Option<u16> {
    match parse_unsigned(s, 65535) {
        Some(v) => Some(v as u16),
        None => None,
    }
}

/// Reads a port number (`str::parse::<u16>`).
fn parse_u16(s: &str) -> (r: Option<u16>)
    ensures
        r == parsed_u16(s@),
{
    match parse_unsigned_text(s, 65535) {
        Some(v) => Some(v as u16),
        None => None,
    }
}

/// Host and port the local server is probed at: the port after the last
/// `:` of the authority (80 when absent or not a number); `None` when the
/// host is empty.
pub open spec fn local_endpoint_of(base: Seq<char>) -> Option<(Seq<char>, u16)> {
    let a = url_authority(base);
    let (host, port) = match last_index_of(a, ':') {
        Some(i) => (
            a.take(i),
            match parsed_u16(a.skip(i + 1)) {
                Some(p) => p,
                None => 80u16,
            },
        ),
        None => (a, 80u16),
    };
    if host.len() == 0 {
        None
    } else {
        Some((host, port))
    }
}

fn find_scheme_end(s: &Vec<char>) -> (r: Option<usize>)
    ensures
        match r {
            Some(i) => scheme_end(s@) == Some(i as int) && i + 3 <= s@.len(),
            None => scheme_end(s@) is None,
        },
{
    let mut i: usize = 0;
    assert(s@.skip(0) =~= s@);
    while i < s.len() && s.len() - i >= 3
        invariant
            i <= s@.len(),
            scheme_end(s@) == match scheme_end(s@.skip(i as int)) {
                Some(k) => Some(k + i),
                None => None::<int>,
            },
        decreases s.len() - i,
    {
        if s[i] == ':' && s[i + 1] == '/' && s[i + 2] == '/' {
            assert(scheme_end(s@.skip(i as int)) == Some(0int));
            return Some(i);
        }
        assert(s@.skip(i as int).drop_first() =~= s@.skip(i + 1));
        i = i + 1;
    }
    assert(s@.skip(i as int).len() < 3);
    None
}

fn find_last(s: &Vec<char>, c: char) -> (r: Option<usize>)
    ensures
        match r {
            Some(i) => last_index_of(s@, c) == Some(i as int) && i < s@.len(),
            None => last_index_of(s@, c) is None,
        },
{
    let mut n: usize = s.len();
    assert(s@.take(n as int) =~= s@);
    while n > 0
        invariant
            n <= s@.len(),
            last_index_of(s@, c) == last_index_of(s@.take(n as int), c),
        decreases n,
    {
        if s[n - 1] == c {
            return Some(n - 1);
        }
        assert(s@.take(n as int).drop_last() =~= s@.take(n - 1));
        n = n - 1;
    }
    None
}

/// Where the local server at `base` is probed: host and port.
pub fn local_endpoint(base: &str) -> (r: Option<(String, u16)>)
    ensures
        match r {
            Some((h, p)) => local_endpoint_of(base@) == Some((h@, p)),
            None => local_endpoint_of(base@) is None,
        },
{
    let v = chars_of(base);
    let after = match find_scheme_end(&v) {
        Some(i) => {
            assert(i + 3 <= v.len());
            chars_from(&v, i + 3)
        },
        None => v.clone(),
    };
    let authority = match find_char(&after, '/') {
        Some(j) => {
            proof {
                lemma_index_of_bounds(after@, '/');
            }
            chars_upto(&after, j)
        },
        None => after,
    };
    assert(authority@ == url_authority(base@));
    let (host, port) = match find_last(&authority, ':') {
        Some(i) => {
            let rest = chars_from(&authority, i + 1);
            let port_text = string_from_chars(&rest);
            let port = match parse_u16(port_text.as_str()) {
                Some(p) => p,
                None => 80u16,
            };
            (chars_upto(&authority, i), port)
        },
        None => (authority, 80u16),
    };
    if host.len() == 0 {
        None
    } else {
        Some((string_from_chars(&host), port))
    }
}

/// Runtime registry of provider instances by name, with a default: the
/// first registered unless changed. Registering a name again replaces its
/// provider.
pub struct ProviderRegistry<P> {
    table: NameTable<P>,
    default: Option<String>,
}

impl<P> ProviderRegistry<P> {
    /// The provider registered under each name.
    pub closed spec fn entries(&self) -> Map<Seq<char>, P> {
        self.table.entries()
    }

    /// The default provider's name.
    pub closed spec fn default_view(&self) -> Option<Seq<char>> {
        match self.default {
            Some(d) => Some(d@),
            None => None,
        }
    }

    /// The table is well formed and the default is registered.
    pub closed spec fn wf(&self) -> bool {
        &&& self.table.wf()
        &&& (self.default matches Some(d) ==> self.entries().dom().contains(d@))
    }

    /// An empty registry.
    pub fn new() -> (r: Self)
        ensures
            r.wf(),
            r.entries() == Map::<Seq<char>, P>::empty(),
            r.default_view() is None,
    {
        ProviderRegistry { table: NameTable::new(), default: None }
    }

    /// Registers `provider` under `name`; the first registered becomes the
    /// default.
    pub fn register(&mut self, name: String, provider: P)
        requires
            old(self).wf(),
        ensures
            final(self).wf(),
            final(self).entries() == old(self).entries().insert(name@, provider),
            final(self).default_view() == (match old(self).default_view() {
                Some(d) => Some(d),
                None => Some(name@),
            }),
    {
        if self.default.is_none() {
            self.default = Some(name.clone());
        }
        self.table.insert(name, provider);
    }

    /// The provider registered under `name`.
    pub fn get(&self, name: &str) -> (r: Option<&P>)
        requires
            self.wf(),
        ensures
            match r {
                Some(p) => self.entries().dom().contains(name@) && *p == self.entries()[name@],
                None => !self.entries().dom().contains(name@),
            },
    {
        self.table.get(name)
    }

    /// The registered names, sorted.
    pub fn names(&self) -> (r: Vec<String>)
        requires
            self.wf(),
        ensures
            r@.map_values(|s: String| s@).to_set() == self.entries().dom(),
            crate::text::strictly_sorted(r@.map_values(|s: String| s@)),
    {
        self.table.names()
    }

    /// Number of registered providers.
    pub fn len(&self) -> (r: usize)
        requires
            self.wf(),
        ensures
            r == self.entries().dom().len(),
    {
        self.table.len()
    }

    /// No provider is registered.
    pub fn is_empty(&self) -> (r: bool)
        requires
            self.wf(),
        ensures
            r == (self.entries().dom().len() == 0),
    {
        self.table.len() == 0
    }

    /// The default provider's name.
    pub fn default_name(&self) -> (r: Option<&str>)
        ensures
            match r {
                Some(n) => self.default_view() == Some(n@),
                None => self.default_view() is None,
            },
    {
        match &self.default {
            Some(d) => Some(d.as_str()),
            None => None,
        }
    }

    /// Makes `name` the default when it is registered.
    pub fn set_default(&mut self, name: &str) -> (r: bool)
        requires
            old(self).wf(),
        ensures
            final(self).wf(),
            r == old(self).entries().dom().contains(name@),
            final(self).entries() == old(self).entries(),
            r ==> final(self).default_view() == Some(name@),
            !r ==> final(self).default_view() == old(self).default_view(),
    {
        match self.table.get(name) {
            Some(_) => {
                self.default = Some(name.to_string());
                true
            },
            None => false,
        }
    }

    /// The default provider.
    pub fn default_provider(&self) -> (r: Option<&P>)
        requires
            self.wf(),
        ensures
            match r {
                Some(p) => self.default_view() matches Some(d) && *p == self.entries()[d],
                None => self.default_view() is None,
            },
    {
        match &self.default {
            Some(d) => self.table.get(d.as_str()),
            None => None,
        }
    }
}

/// Ollama's native root: the base URL without trailing slashes and
/// without a final `/v1`.
pub open spec fn ollama_root(base: Seq<char>) -> Seq<char> {
    let t = crate::text::trim_end_char(base, '/');
    if crate::text::seq_ends_with(t, "/v1"@) {
        t.take(t.len() - 3)
    } else {
        t
    }
}

/// Ollama's model list endpoint, `{root}/api/tags`.
pub fn ollama_tags_url(base: &str) -> (r: String)
    ensures
        r@ == ollama_root(base@) + "/api/tags"@,
{
    let t = crate::text::trim_end_matches_char(base, '/');
    let v = chars_of(t.as_str());
    let suffix = chars_of("/v1");
    proof {
        reveal_strlit("/v1");
    }
    let root = if crate::text::ends_with_chars(&v, &suffix) {
        chars_upto(&v, v.len() - 3)
    } else {
        v
    };
    let r = string_from_chars(&root);
    crate::text::concat(r.as_str(), "/api/tags")
}

/// The model names an Ollama `/api/tags` payload lists, in payload order.
pub open spec fn ollama_listed(data: serde_json::Value) -> Seq<Seq<char>> {
    match crate::json::member(data, "models"@) {
        Some(m) => match crate::json::array_items(m) {
            Some(items) => items.filter_map(|e: serde_json::Value| crate::json::member_str(e, "name"@)),
            None => seq![],
        },
        None => seq![],
    }
}

/// The model names of an Ollama `/api/tags` payload: sorted, each once.
pub fn ollama_model_names(data: &serde_json::Value) -> (r: Vec<String>)
    ensures
        r@.map_values(|s: String| s@).to_set() == ollama_listed(*data).to_set(),
        crate::text::strictly_sorted(r@.map_values(|s: String| s@)),
{
    let mut names: Vec<String> = Vec::new();
    let items = match crate::json::json_get(data, "models") {
        Some(m) => crate::json::json_array_items(m),
        None => None,
    };
    match items {
        Some(items) => {
            let mut i: usize = 0;
            assert(names@.map_values(|s: String| s@) =~= items@.take(0).filter_map(
                |e: serde_json::Value| crate::json::member_str(e, "name"@),
            ));
            while i < items.len()
                invariant
                    i <= items@.len(),
                    names@.map_values(|s: String| s@) == items@.take(i as int).filter_map(
                        |e: serde_json::Value| crate::json::member_str(e, "name"@),
                    ),
                decreases items.len() - i,
            {
                proof {
                    assert(items@.take(i + 1).drop_last() =~= items@.take(i as int));
                    assert(items@.take(i + 1).last() == items@[i as int]);
                }
                let ghost before = names@;
                match crate::json::json_str_field(&items[i], "name") {
                    Some(n) => {
                        names.push(n);
                        assert(names@.map_values(|s: String| s@) =~= before.map_values(|s: String| s@).push(
                            n@,
                        ));
                    },
                    None => {},
                }
                i = i + 1;
            }
            assert(items@.take(items@.len() as int) =~= items@);
        },
        None => {
            assert(names@.map_values(|s: String| s@) =~= ollama_listed(*data));
        },
    }
    let sorted = crate::text::sort_strings(names);
    proof {
        let a = sorted@.map_values(|s: String| s@);
        let b = ollama_listed(*data);
        assert forall|x: Seq<char>| a.to_set().contains(x) <==> b.to_set().contains(x) by {
            if a.to_set().contains(x) {
                assert(a.to_multiset().count(x) > 0) by {
                    a.to_multiset_ensures();
                }
                b.to_multiset_ensures();
            }
            if b.to_set().contains(x) {
                assert(b.to_multiset().count(x) > 0) by {
                    b.to_multiset_ensures();
                }
                a.to_multiset_ensures();
            }
        }
        assert(a.to_set() =~= b.to_set());
    }
    crate::text::dedup_strings(sorted)
}

/// Whether the list from the OpenAI-compatible endpoint is used: it must
/// be non-empty and differ from the static list (else Ollama's own list
/// is asked for).
pub fn prefer_listed_models(listed: &Vec<String>, static_models: &Vec<String>) -> (r: bool)
    ensures
        r == (listed@.len() > 0 && listed@.map_values(|s: String| s@) != static_models@.map_values(
            |s: String| s@,
        )),
{
    if listed.len() == 0 {
        return false;
    }
    if listed.len() != static_models.len() {
        assert(listed@.map_values(|s: String| s@).len() != static_models@.map_values(|s: String| s@).len());
        return true;
    }
    let mut i: usize = 0;
    while i < listed.len()
        invariant
            i <= listed@.len(),
            listed@.len() == static_models@.len(),
            forall|k: int| 0 <= k < i ==> listed@[k]@ == static_models@[k]@,
        decreases listed.len() - i,
    {
        if !crate::text::string_eq(&listed[i], &static_models[i]) {
            assert(listed@.map_values(|s: String| s@)[i as int] != static_models@.map_values(|s: String| s@)[i as int]);
            return true;
        }
        i = i + 1;
    }
    assert(listed@.map_values(|s: String| s@) =~= static_models@.map_values(|s: String| s@));
    false
}

} // verus!
