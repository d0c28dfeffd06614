//! Runtime configuration, inference requests, and the checks that admit them.
use vstd::prelude::*;
use crate::error::{config_error, ErrorView, RuntimeError};
use crate::text::{has_prefix, is_blank, str_is_blank, str_equal, str_strip_prefix};

verus! {

/// The evaluation profile every configuration must name.
pub const PROFILE_ID: &'static str = "NS-LLM";

/// How the runtime reaches a provider.
#[derive(Clone, Copy, Debug, PartialEq, Eq, Structural)]
pub enum ProviderTransport {
    LocalProcess,
    Ollama,
    Vllm,
    OpenaiCompatible,
    Native,
}

/// The kebab-case name of a transport, as it is written in configurations and identities.
pub open spec fn transport_name(t: ProviderTransport) -> Seq<char> {
    match t {
        ProviderTransport::LocalProcess => "local-process"@,
        ProviderTransport::Ollama => "ollama"@,
        ProviderTransport::Vllm => "vllm"@,
        ProviderTransport::OpenaiCompatible => "openai-compatible"@,
        ProviderTransport::Native => "native"@,
    }
}

impl ProviderTransport {
    /// The transport's name.
    pub fn as_str(&self) -> (r: &'static str)
        ensures
            r@ == transport_name(*self),
    {
        match self {
            ProviderTransport::LocalProcess => "local-process",
            ProviderTransport::Ollama => "ollama",
            ProviderTransport::Vllm => "vllm",
            ProviderTransport::OpenaiCompatible => "openai-compatible",
            ProviderTransport::Native => "native",
        }
    }

    /// The transport's name as an owned string (what its display form prints).
    pub fn to_string(&self) -> (r: String)
        ensures
            r@ == transport_name(*self),
    {
        self.as_str().to_owned()
    }
}


/// What a provider declares it supports.
#[derive(Clone, Debug, Default, PartialEq, Eq)]
pub struct ProviderCapabilities {
    pub tools: bool,
    pub streaming: bool,
    pub seed: bool,
    pub structured_output: bool,
    pub images: bool,
}

/// Generation settings the runtime reads: the seed and the token limit.
/// (Sampling temperatures are carried by the configuration file's reader, not here.)
#[derive(Clone, Debug, Default, PartialEq, Eq)]
pub struct GenerationConfig {
    pub seed: Option<u64>,
    pub max_tokens: Option<u64>,
}

/// One model provider, as configured.
#[derive(Clone, Debug, PartialEq, Eq)]
pub struct ProviderConfig {
    pub provider_id: String,
    pub model_id: String,
    pub transport: ProviderTransport,
    pub endpoint: Option<String>,
    pub auth_ref: Option<String>,
    pub capabilities: ProviderCapabilities,
    pub generation: Option<GenerationConfig>,
}

/// The whole runtime configuration.
#[derive(Clone, Debug, PartialEq, Eq)]
pub struct RuntimeConfig {
    pub profile: String,
    pub provider: ProviderConfig,
}

/// One inference to run.
#[derive(Clone, Debug, PartialEq, Eq)]
pub struct InferenceRequest {
    pub experiment_id: String,
    pub prompt: String,
    pub seed: Option<u64>,
}

/// The prefix that marks a credential reference as the name of an environment variable.
pub open spec fn env_prefix() -> Seq<char> {
    "env:"@
}

/// The first thing wrong with a provider configuration, checked in this order:
/// blank provider id, blank model id, a credential reference that is not
/// `env:NAME`, an `env:` reference with a blank name, a token limit of zero.
pub open spec fn provider_config_problem(c: ProviderConfig) -> Option<ErrorView> {
    if is_blank(c.provider_id@) {
        Some(ErrorView::Config("provider_id must not be empty"@))
    } else if is_blank(c.model_id@) {
        Some(ErrorView::Config("model_id must not be empty"@))
    } else if c.auth_ref is Some && !has_prefix(c.auth_ref->0@, env_prefix()) {
        Some(ErrorView::Config("auth_ref must use env:NAME; raw credentials are forbidden"@))
    } else if c.auth_ref is Some && is_blank(c.auth_ref->0@.skip(env_prefix().len() as int)) {
        Some(ErrorView::Config("auth_ref environment variable name must not be empty"@))
    } else if c.generation is Some && c.generation->0.max_tokens == Some(0u64) {
        Some(ErrorView::Config("generation.max_tokens must be greater than zero"@))
    } else {
        None
    }
}

/// The first thing wrong with a runtime configuration: a profile other than
/// `PROFILE_ID`, then whatever is wrong with its provider.
pub open spec fn runtime_config_problem(c: RuntimeConfig) -> Option<ErrorView> {
    if c.profile@ != PROFILE_ID@ {
        Some(ErrorView::Config("profile must be "@ + PROFILE_ID@ + ", got "@ + c.profile@))
    } else {
        provider_config_problem(c.provider)
    }
}

/// The first thing wrong with a request: a blank experiment id, then an empty prompt.
pub open spec fn request_problem(r: InferenceRequest) -> Option<ErrorView> {
    if is_blank(r.experiment_id@) {
        Some(ErrorView::Config("experiment_id must not be empty"@))
    } else if r.prompt@.len() == 0 {
        Some(ErrorView::Config("prompt must not be empty"@))
    } else {
        None
    }
}

/// A check's outcome: success when there is no problem, else that problem.
pub open spec fn check_outcome(problem: Option<ErrorView>) -> Result<(), ErrorView> {
    match problem {
        Some(e) => Err(e),
        None => Ok(()),
    }
}

/// The environment variable named by an `env:NAME` credential reference.
pub open spec fn auth_env_name_of(c: ProviderConfig) -> Option<Seq<char>> {
    match c.auth_ref {
        Some(r) => if has_prefix(r@, env_prefix()) {
            Some(r@.skip(env_prefix().len() as int))
        } else {
            None
        },
        None => None,
    }
}

impl ProviderConfig {
    pub fn validate(&self) -> (r: Result<(), RuntimeError>)
        ensures
            crate::error::outcome(r) == check_outcome(provider_config_problem(*self)),
    {
        if str_is_blank(self.provider_id.as_str()) {
            return Err(config_error("provider_id must not be empty"));
        }
        if str_is_blank(self.model_id.as_str()) {
            return Err(config_error("model_id must not be empty"));
        }
        if let Some(reference) = &self.auth_ref {
            match str_strip_prefix(reference.as_str(), "env:") {
                None => {
                    return Err(config_error("auth_ref must use env:NAME; raw credentials are forbidden"));
                },
                Some(name) => {
                    if str_is_blank(name) {
                        return Err(config_error("auth_ref environment variable name must not be empty"));
                    }
                },
            }
        }
        if let Some(generation) = &self.generation {
            if generation.max_tokens == Some(0u64) {
                return Err(config_error("generation.max_tokens must be greater than zero"));
            }
        }
        Ok(())
    }

    /// The environment variable that holds the provider credential, if one is referenced.
    pub fn auth_env_name(&self) -> (r: Option<&str>)
        ensures
            match r {
                Some(name) => auth_env_name_of(*self) == Some(name@),
                None => auth_env_name_of(*self) is None,
            },
    {
        match &self.auth_ref {
            Some(reference) => str_strip_prefix(reference.as_str(), "env:"),
            None => None,
        }
    }
}

impl RuntimeConfig {
    pub fn validate(&self) -> (r: Result<(), RuntimeError>)
        ensures
            crate::error::outcome(r) == check_outcome(runtime_config_problem(*self)),
    {
        if !str_equal(self.profile.as_str(), PROFILE_ID) {
            let mut message = "profile must be ".to_owned();
            message.append(PROFILE_ID);
            message.append(", got ");
            message.append(self.profile.as_str());
            return Err(RuntimeError::Config(message));
        }
        self.provider.validate()
    }
}

impl InferenceRequest {
    pub fn validate(&self) -> (r: Result<(), RuntimeError>)
        ensures
            crate::error::outcome(r) == check_outcome(request_problem(*self)),
    {
        if str_is_blank(self.experiment_id.as_str()) {
            return Err(config_error("experiment_id must not be empty"));
        }
        if self.prompt.as_str().is_empty() {
            return Err(config_error("prompt must not be empty"));
        }
        Ok(())
    }
}

} // verus!
