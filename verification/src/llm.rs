//! Selection of the language-model backend behind the AI assistant, its
//! availability, and the assistant's scenarios.
use vstd::prelude::*;

use crate::config::LlmConfig;
use crate::text::{copy_opt_string, owned, str_eq};

verus! {

/// The language-model backend in use.
#[derive(Debug)]
pub enum LlmBackend {
    OpenAi { api_key: String, model: String },
    AzureOpenAi { endpoint: String, api_key: String, deployment: String },
    Ollama { url: String, model: String },
    Mock,
}

/// What the assistant is asked to do.
#[derive(Debug, Clone, Copy, PartialEq, Eq, Structural)]
pub enum AiScenario {
    CapabilityDecomposition,
    ProcessDesign,
    GapAnalysis,
    RedundancyIdentification,
}

/// Query of the streaming endpoint.
#[derive(Debug)]
pub struct StreamQuery {
    pub scenario: Option<String>,
}

/// The text of an optional setting, or `default` when it is unset.
pub open spec fn setting_or(v: Option<String>, default: Seq<char>) -> Seq<char> {
    match v {
        Some(s) => s@,
        None => default,
    }
}

fn setting_or_exec(v: &Option<String>, default: &str) -> (r: String)
    ensures
        r@ == setting_or(*v, default@),
{
    match copy_opt_string(v) {
        Some(s) => s,
        None => owned(default),
    }
}

/// `b` is the backend that `cfg` selects: `openai`, `azure_openai` and
/// `ollama` select those services with their settings or defaults; any other
/// name selects the mock.
pub open spec fn selects(cfg: LlmConfig, b: LlmBackend) -> bool {
    if cfg.backend@ == "openai"@ {
        b matches LlmBackend::OpenAi { api_key, model } && api_key@ == setting_or(
            cfg.api_key,
            Seq::empty(),
        ) && model@ == setting_or(cfg.model, "gpt-4"@)
    } else if cfg.backend@ == "azure_openai"@ {
        b matches LlmBackend::AzureOpenAi { endpoint, api_key, deployment } && endpoint@
            == setting_or(cfg.endpoint, Seq::empty()) && api_key@ == setting_or(
            cfg.api_key,
            Seq::empty(),
        ) && deployment@ == setting_or(cfg.model, Seq::empty())
    } else if cfg.backend@ == "ollama"@ {
        b matches LlmBackend::Ollama { url, model } && url@ == setting_or(
            cfg.endpoint,
            "http://localhost:11434"@,
        ) && model@ == setting_or(cfg.model, "llama3"@)
    } else {
        b is Mock
    }
}

/// Whether a backend can serve requests: the hosted services need a key.
pub open spec fn backend_available(b: LlmBackend) -> bool {
    match b {
        LlmBackend::Mock => true,
        LlmBackend::OpenAi { api_key, .. } => api_key@.len() > 0,
        LlmBackend::AzureOpenAi { api_key, .. } => api_key@.len() > 0,
        LlmBackend::Ollama { .. } => true,
    }
}

/// The fixed answer each backend gives to a chat prompt.
pub open spec fn chat_reply(b: LlmBackend) -> Seq<char> {
    match b {
        LlmBackend::Mock => "Mock LLM response"@,
        LlmBackend::OpenAi { .. } => "OpenAI response (not yet implemented)"@,
        LlmBackend::AzureOpenAi { .. } => "Azure OpenAI response (not yet implemented)"@,
        LlmBackend::Ollama { .. } => "Ollama response (not yet implemented)"@,
    }
}

impl LlmBackend {
    /// The backend named by the configuration.
    pub fn from_config(cfg: &LlmConfig) -> (b: LlmBackend)
        ensures
            selects(*cfg, b),
    {
        proof {
            reveal_strlit("");
            assert(""@ =~= Seq::<char>::empty());
        }
        let backend: &str = cfg.backend.as_str();
        if str_eq(backend, "openai") {
            LlmBackend::OpenAi {
                api_key: setting_or_exec(&cfg.api_key, ""),
                model: setting_or_exec(&cfg.model, "gpt-4"),
            }
        } else if str_eq(backend, "azure_openai") {
            LlmBackend::AzureOpenAi {
                endpoint: setting_or_exec(&cfg.endpoint, ""),
                api_key: setting_or_exec(&cfg.api_key, ""),
                deployment: setting_or_exec(&cfg.model, ""),
            }
        } else if str_eq(backend, "ollama") {
            LlmBackend::Ollama {
                url: setting_or_exec(&cfg.endpoint, "http://localhost:11434"),
                model: setting_or_exec(&cfg.model, "llama3"),
            }
        } else {
            LlmBackend::Mock
        }
    }

    /// The backend's answer to a chat prompt.
    pub fn chat(&self, _prompt: &str) -> (r: String)
        ensures
            r@ == chat_reply(*self),
    {
        match self {
            LlmBackend::Mock => owned("Mock LLM response"),
            LlmBackend::OpenAi { .. } => owned("OpenAI response (not yet implemented)"),
            LlmBackend::AzureOpenAi { .. } => owned("Azure OpenAI response (not yet implemented)"),
            LlmBackend::Ollama { .. } => owned("Ollama response (not yet implemented)"),
        }
    }

    /// Whether the backend can serve requests.
    pub fn is_available(&self) -> (r: bool)
        ensures
            r == backend_available(*self),
    {
        match self {
            LlmBackend::Mock => true,
            LlmBackend::OpenAi { api_key, .. } => !api_key.as_str().is_empty(),
            LlmBackend::AzureOpenAi { api_key, .. } => !api_key.as_str().is_empty(),
            LlmBackend::Ollama { .. } => true,
        }
    }
}

/// The name of a scenario.
pub open spec fn scenario_name(s: AiScenario) -> Seq<char> {
    match s {
        AiScenario::CapabilityDecomposition => "capability_decomposition"@,
        AiScenario::ProcessDesign => "process_design"@,
        AiScenario::GapAnalysis => "gap_analysis"@,
        AiScenario::RedundancyIdentification => "redundancy_identification"@,
    }
}

/// The scenario a streaming query asks for; capability decomposition unless
/// another scenario is named.
pub open spec fn scenario_of_query(q: Option<Seq<char>>) -> AiScenario {
    match q {
        Some(t) => if t == "process_design"@ {
            AiScenario::ProcessDesign
        } else if t == "gap_analysis"@ {
            AiScenario::GapAnalysis
        } else if t == "redundancy_identification"@ {
            AiScenario::RedundancyIdentification
        } else {
            AiScenario::CapabilityDecomposition
        },
        None => AiScenario::CapabilityDecomposition,
    }
}

/// The entity type and the action of the assistant's suggestion for a
/// scenario.
pub open spec fn suggestion_kind_of(s: AiScenario) -> (Seq<char>, Seq<char>) {
    match s {
        AiScenario::CapabilityDecomposition => ("business_capability"@, "decompose"@),
        AiScenario::ProcessDesign => ("business_process"@, "design"@),
        AiScenario::GapAnalysis => ("gap"@, "identify"@),
        AiScenario::RedundancyIdentification => ("redundancy"@, "identify"@),
    }
}

impl AiScenario {
    /// The name of this scenario (its `snake_case` spelling).
    pub fn as_str(&self) -> (r: &'static str)
        ensures
            r@ == scenario_name(*self),
    {
        match self {
            AiScenario::CapabilityDecomposition => "capability_decomposition",
            AiScenario::ProcessDesign => "process_design",
            AiScenario::GapAnalysis => "gap_analysis",
            AiScenario::RedundancyIdentification => "redundancy_identification",
        }
    }

    /// The entity type and the action of the suggestion for this scenario.
    pub fn suggestion_kind(&self) -> (r: (&'static str, &'static str))
        ensures
            (r.0@, r.1@) == suggestion_kind_of(*self),
    {
        match self {
            AiScenario::CapabilityDecomposition => ("business_capability", "decompose"),
            AiScenario::ProcessDesign => ("business_process", "design"),
            AiScenario::GapAnalysis => ("gap", "identify"),
            AiScenario::RedundancyIdentification => ("redundancy", "identify"),
        }
    }
}

impl StreamQuery {
    /// The scenario this query asks for.
    pub fn scenario(&self) -> (r: AiScenario)
        ensures
            r == scenario_of_query(
                match self.scenario {
                    Some(s) => Some(s@),
                    None => None,
                },
            ),
    {
        match &self.scenario {
            Some(t) => {
                let t: &str = t.as_str();
                if str_eq(t, "process_design") {
                    AiScenario::ProcessDesign
                } else if str_eq(t, "gap_analysis") {
                    AiScenario::GapAnalysis
                } else if str_eq(t, "redundancy_identification") {
                    AiScenario::RedundancyIdentification
                } else {
                    AiScenario::CapabilityDecomposition
                }
            },
            None => AiScenario::CapabilityDecomposition,
        }
    }
}

/// The backend that a configuration selects carries the configured
/// settings: each setting that is given is used as it is, and a default
/// (`gpt-4`, `http://localhost:11434`, `llama3`, or empty) stands only for a
/// setting that is not given. A backend name other than `openai`,
/// `azure_openai` and `ollama` selects the mock.
pub proof fn lemma_backend_carries_settings(cfg: LlmConfig, b: LlmBackend)
    requires
        selects(cfg, b),
    ensures
        cfg.backend@ == "openai"@ ==> (b matches LlmBackend::OpenAi { api_key, model } && (
        cfg.api_key matches Some(k) ==> api_key@ == k@) && (cfg.api_key is None ==> api_key@.len()
            == 0) && (cfg.model matches Some(m) ==> model@ == m@) && (cfg.model is None ==> model@
            == "gpt-4"@)),
        cfg.backend@ == "azure_openai"@ ==> (b matches LlmBackend::AzureOpenAi {
            endpoint,
            api_key,
            deployment,
        } && (cfg.endpoint matches Some(e) ==> endpoint@ == e@) && (cfg.endpoint is None
            ==> endpoint@.len() == 0) && (cfg.api_key matches Some(k) ==> api_key@ == k@) && (
        cfg.api_key is None ==> api_key@.len() == 0) && (cfg.model matches Some(m) ==> deployment@
            == m@) && (cfg.model is None ==> deployment@.len() == 0)),
        cfg.backend@ == "ollama"@ ==> (b matches LlmBackend::Ollama { url, model } && (
        cfg.endpoint matches Some(e) ==> url@ == e@) && (cfg.endpoint is None ==> url@
            == "http://localhost:11434"@) && (cfg.model matches Some(m) ==> model@ == m@) && (
        cfg.model is None ==> model@ == "llama3"@)),
        cfg.backend@ != "openai"@ && cfg.backend@ != "azure_openai"@ && cfg.backend@ != "ollama"@
            ==> b is Mock,
{
    reveal_strlit("openai");
    reveal_strlit("azure_openai");
    reveal_strlit("ollama");
    assert("openai"@.len() == 6);
    assert("azure_openai"@.len() == 12);
    assert("ollama"@.len() == 6);
    assert("openai"@[1] != "ollama"@[1]);
}

/// Every scenario is found again from its own name.
pub proof fn lemma_scenario_name_roundtrip(s: AiScenario)
    ensures
        s != AiScenario::CapabilityDecomposition ==> scenario_of_query(Some(scenario_name(s)))
            == s,
{
    reveal_strlit("capability_decomposition");
    reveal_strlit("process_design");
    reveal_strlit("gap_analysis");
    reveal_strlit("redundancy_identification");
    assert("process_design"@.len() == 14);
    assert("gap_analysis"@.len() == 12);
    assert("redundancy_identification"@.len() == 25);
}

/// The mock and the local backend are always available; a hosted backend is
/// available exactly when the configuration gives it a non-empty key.
pub proof fn lemma_availability_follows_key(cfg: LlmConfig, b: LlmBackend)
    requires
        selects(cfg, b),
    ensures
        (cfg.backend@ == "openai"@ || cfg.backend@ == "azure_openai"@) ==> (backend_available(b)
            <==> setting_or(cfg.api_key, Seq::empty()).len() > 0),
        !(cfg.backend@ == "openai"@ || cfg.backend@ == "azure_openai"@) ==> backend_available(b),
{
}

} // verus!
