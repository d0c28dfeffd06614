//! Provider adapters: the deterministic fixture, and the OpenAI-compatible chat
//! adapter whose requests this library writes and whose replies it checks.
use vstd::prelude::*;
use vstd::utf8::encode_utf8;
use crate::config::{
    auth_env_name_of, transport_name, InferenceRequest, ProviderConfig, ProviderTransport,
};
use crate::encoding::{append_bytes, decimal, u64_decimal};
use crate::endpoint::{
    endpoint_outcome, option_view, protected_endpoint, url_parse, validate_endpoint,
};
use crate::laws::lemma_credentials_only_over_tls_or_loopback;
use crate::error::{ErrorView, RuntimeError};
use crate::identity::{canonical_input_hash, canonical_input_sha256, identity_of, ProviderIdentity};
use crate::json::{json_string, push_json_string};
use crate::text::{eq_ignore_ascii_case, str_eq_ignore_ascii_case, str_equal};

verus! {

/// The endpoint an Ollama provider uses when none is configured.
pub const OLLAMA_DEFAULT_ENDPOINT: &'static str = "http://127.0.0.1:11434/v1/chat/completions";

/// The capabilities every provider adapter offers the composition root.
pub trait ModelProvider {
    /// The configuration the adapter was built from.
    spec fn provider_config(&self) -> ProviderConfig;

    /// The identity the adapter answers under.
    fn identity(&self) -> (r: ProviderIdentity)
        ensures
            r == identity_of(self.provider_config()),
    ;

    /// Whether the provider takes a seed, in which case every request must carry one.
    fn supports_seed(&self) -> (r: bool)
        ensures
            r == self.provider_config().capabilities.seed,
    ;
}

impl ModelProvider for FixtureProvider {
    closed spec fn provider_config(&self) -> ProviderConfig {
        self.config
    }

    fn identity(&self) -> (r: ProviderIdentity) {
        ProviderIdentity::from_config(&self.config)
    }

    fn supports_seed(&self) -> (r: bool) {
        self.config.capabilities.seed
    }
}

impl ModelProvider for OpenAiCompatibleProvider {
    closed spec fn provider_config(&self) -> ProviderConfig {
        self.config
    }

    fn identity(&self) -> (r: ProviderIdentity) {
        ProviderIdentity::from_config(&self.config)
    }

    fn supports_seed(&self) -> (r: bool) {
        self.config.capabilities.seed
    }
}

/// The deterministic provider used by tests and continuous integration.
#[derive(Clone, Debug)]
pub struct FixtureProvider {
    pub(crate) config: ProviderConfig,
}

/// What the fixture answers: `fixture:`, the model id, `:`, and the canonical
/// input hash of the request under the configured identity.
pub open spec fn fixture_output(config: ProviderConfig, request: InferenceRequest) -> Seq<char> {
    "fixture:"@ + config.model_id@ + ":"@ + canonical_input_hash(identity_of(config), request)
}

impl FixtureProvider {
    /// The fixture for a configuration.
    pub fn new(config: ProviderConfig) -> (r: Self)
        ensures
            r.provider_config() == config,
    {
        FixtureProvider { config }
    }

    /// The configuration the fixture was built from.
    pub fn config(&self) -> (r: &ProviderConfig)
        ensures
            *r == self.provider_config(),
    {
        &self.config
    }

    pub fn infer(&self, request: &InferenceRequest) -> (r: Result<String, RuntimeError>)
        ensures
            r matches Ok(output) && output@ == fixture_output(self.provider_config(), *request),
    {
        let identity = self.identity();
        let digest = canonical_input_sha256(&identity, request)?;
        let mut output = "fixture:".to_owned();
        output.append(self.config.model_id.as_str());
        output.append(":");
        output.append(digest.as_str());
        Ok(output)
    }
}

/// An adapter for chat-completion endpoints that speak the OpenAI protocol.
/// It is made only by `new`, so its endpoint always passed the checks for the
/// credentials its configuration references.
#[derive(Debug)]
pub struct OpenAiCompatibleProvider {
    pub(crate) config: ProviderConfig,
    pub(crate) endpoint: String,
}

/// The endpoint an OpenAI-compatible adapter posts to: refused for xAI (whose
/// compatibility adapter is not enabled), the configured endpoint or the local
/// default for Ollama, and otherwise the configured endpoint, which is then required.
pub open spec fn openai_endpoint(config: ProviderConfig) -> Result<Seq<char>, ErrorView> {
    if eq_ignore_ascii_case(config.provider_id@, "xai"@) {
        Err(
            ErrorView::UnsupportedProvider(
                "xAI is compatibility-only; rebuild with --features xai-compat"@,
            ),
        )
    } else {
        match config.endpoint {
            Some(e) => Ok(e@),
            None => if config.transport == ProviderTransport::Ollama {
                Ok(OLLAMA_DEFAULT_ENDPOINT@)
            } else {
                Err(
                    ErrorView::Config(
                        "endpoint is required for provider "@ + config.provider_id@ + " over "@
                            + transport_name(config.transport),
                    ),
                )
            },
        }
    }
}

/// The outcome of building an OpenAI-compatible adapter: its endpoint, once the
/// endpoint has passed the checks for credentials (which are attached when the
/// configuration references one).
pub open spec fn openai_adapter_outcome(config: ProviderConfig) -> Result<Seq<char>, ErrorView> {
    match openai_endpoint(config) {
        Err(e) => Err(e),
        Ok(endpoint) => match endpoint_outcome(url_parse(endpoint), config.auth_ref is Some) {
            Err(e) => Err(e),
            Ok(_) => Ok(endpoint),
        },
    }
}

/// One chat-completion call: where it goes, the JSON body, and the environment
/// variable whose value is sent as the bearer token (when there is one).
#[derive(Clone, Debug, PartialEq, Eq)]
pub struct ChatRequest {
    pub endpoint: String,
    pub body: Vec<u8>,
    pub bearer_env: Option<String>,
}

/// The chat-completion request body: the model, one user message with the
/// prompt, no streaming, and the seed when the request has one. Keys are in
/// sorted order, as `serde_json` writes an object built with `json!`.
pub open spec fn chat_request_body(model: Seq<char>, prompt: Seq<char>, seed: Option<u64>) -> Seq<
    u8,
> {
    encode_utf8("{\"messages\":[{\"content\":"@) + json_string(prompt) + encode_utf8(
        ",\"role\":\"user\"}],\"model\":"@,
    ) + json_string(model) + match seed {
        Some(n) => encode_utf8(",\"seed\":"@) + decimal(n as nat),
        None => Seq::empty(),
    } + encode_utf8(",\"stream\":false}"@)
}

/// What a chat-completion reply carries for the runtime: the top-level `model`
/// and `choices[0].message.content`, each when present as a string.
#[derive(Clone, Debug, PartialEq, Eq)]
pub struct ProviderResponse {
    pub model: Option<String>,
    pub content: Option<String>,
}

/// The content of a reply with the given top-level `model` and first message
/// content, refused unless the reply names the requested model.
pub open spec fn reply_content(
    model: Option<Seq<char>>,
    content: Option<Seq<char>>,
    expected_model: Seq<char>,
) -> Result<Seq<char>, ErrorView> {
    match model {
        None => Err(ErrorView::Provider("response omitted top-level model identity"@)),
        Some(resolved) => if resolved != expected_model {
            Err(
                ErrorView::Provider(
                    "response model mismatch: requested "@ + expected_model + ", resolved "@
                        + resolved,
                ),
            )
        } else {
            match content {
                Some(c) => Ok(c),
                None => Err(ErrorView::Provider("response omitted choices[0].message.content"@)),
            }
        },
    }
}

/// The content of a reply, refused unless the reply names the requested model.
pub open spec fn response_content(response: ProviderResponse, expected_model: Seq<char>) -> Result<
    Seq<char>,
    ErrorView,
> {
    reply_content(option_view(response.model), option_view(response.content), expected_model)
}

/// What `serde_json` reads of a chat-completion reply body: nothing when the
/// body is not JSON, else the top-level `model` and `choices[0].message.content`,
/// each when present as a string.
pub uninterp spec fn reply_fields(body: Seq<u8>) -> Option<(Option<Seq<char>>, Option<Seq<char>>)>;

/// `serde_json::from_slice` into a `serde_json::Value`, then `Value::get("model")`
/// and `Value::pointer("/choices/0/message/content")`, each read with
/// `Value::as_str`. Claimed: the outcome is `reply_fields(body@)`, a function of
/// the bytes alone. Nothing more is stated of the JSON parser.
#[verifier::external_body]
fn parse_reply(body: &[u8]) -> (r: Result<ProviderResponse, serde_json::Error>)
    ensures
        match r {
            Ok(response) => reply_fields(body@) == Some(
                (option_view(response.model), option_view(response.content)),
            ),
            Err(_) => reply_fields(body@) is None,
        },
{
    let value: serde_json::Value = serde_json::from_slice(body)?;
    Ok(ProviderResponse {
        model: value.get("model").and_then(serde_json::Value::as_str).map(str::to_owned),
        content: value.pointer("/choices/0/message/content").and_then(serde_json::Value::as_str).map(
            str::to_owned,
        ),
    })
}

/// Reads a chat-completion reply body: its `model` and first message content,
/// or the JSON error when the body is not JSON.
pub fn read_reply(body: &[u8]) -> (r: Result<ProviderResponse, RuntimeError>)
    ensures
        match r {
            Ok(response) => reply_fields(body@) == Some(
                (option_view(response.model), option_view(response.content)),
            ),
            Err(e) => reply_fields(body@) is None && e@ == ErrorView::Json,
        },
{
    match parse_reply(body) {
        Ok(response) => Ok(response),
        Err(e) => Err(RuntimeError::Json(e)),
    }
}

/// Takes the answer out of a chat-completion reply, failing closed when the reply
/// does not name the requested model or carries no content.
pub fn extract_openai_compatible_content(response: &ProviderResponse, expected_model: &str) -> (r:
    Result<String, RuntimeError>)
    ensures
        match r {
            Ok(content) => response_content(*response, expected_model@) == Ok::<
                Seq<char>,
                ErrorView,
            >(content@),
            Err(e) => response_content(*response, expected_model@) == Err::<Seq<char>, ErrorView>(
                e@,
            ),
        },
{
    let resolved = match &response.model {
        Some(m) => m,
        None => {
            return Err(
                RuntimeError::Provider("response omitted top-level model identity".to_owned()),
            );
        },
    };
    if !str_equal(resolved.as_str(), expected_model) {
        let mut message = "response model mismatch: requested ".to_owned();
        message.append(expected_model);
        message.append(", resolved ");
        message.append(resolved.as_str());
        return Err(RuntimeError::Provider(message));
    }
    match &response.content {
        Some(c) => Ok(c.clone()),
        None => Err(
            RuntimeError::Provider("response omitted choices[0].message.content".to_owned()),
        ),
    }
}

impl OpenAiCompatibleProvider {
    /// The endpoint was chosen for the configuration and passed its checks.
    #[verifier::type_invariant]
    spec fn well_formed(self) -> bool {
        openai_adapter_outcome(self.config) == Ok::<Seq<char>, ErrorView>(self.endpoint@)
    }

    /// The endpoint the adapter posts to, as text.
    pub closed spec fn endpoint_view(&self) -> Seq<char> {
        self.endpoint@
    }

    /// The configuration the adapter was built from.
    pub fn config(&self) -> (r: &ProviderConfig)
        ensures
            *r == self.provider_config(),
    {
        &self.config
    }

    /// The endpoint the adapter posts to; it is the one chosen for the
    /// configuration, and it passed the checks for the credentials referenced.
    pub fn endpoint(&self) -> (r: &str)
        ensures
            r@ == self.endpoint_view(),
            openai_adapter_outcome(self.provider_config()) == Ok::<Seq<char>, ErrorView>(
                self.endpoint_view(),
            ),
    {
        proof {
            use_type_invariant(self);
        }
        self.endpoint.as_str()
    }

    /// Builds the adapter: picks the endpoint and checks it.
    pub fn new(config: ProviderConfig) -> (r: Result<Self, RuntimeError>)
        ensures
            match r {
                Ok(p) => p.provider_config() == config && openai_adapter_outcome(config) == Ok::<
                    Seq<char>,
                    ErrorView,
                >(p.endpoint_view()),
                Err(e) => openai_adapter_outcome(config) == Err::<Seq<char>, ErrorView>(e@),
            },
    {
        if str_eq_ignore_ascii_case(config.provider_id.as_str(), "xai") {
            return Err(
                RuntimeError::UnsupportedProvider(
                    "xAI is compatibility-only; rebuild with --features xai-compat".to_owned(),
                ),
            );
        }
        let endpoint = match &config.endpoint {
            Some(e) => e.clone(),
            None => {
                if config.transport == ProviderTransport::Ollama {
                    OLLAMA_DEFAULT_ENDPOINT.to_owned()
                } else {
                    let mut message = "endpoint is required for provider ".to_owned();
                    message.append(config.provider_id.as_str());
                    message.append(" over ");
                    message.append(config.transport.as_str());
                    return Err(RuntimeError::Config(message));
                }
            },
        };
        validate_endpoint(endpoint.as_str(), config.auth_ref.is_some())?;
        Ok(OpenAiCompatibleProvider { config, endpoint })
    }

    /// The call that asks the provider for an answer to `request`.
    pub fn chat_request(&self, request: &InferenceRequest) -> (call: ChatRequest)
        ensures
            call.endpoint@ == self.endpoint_view(),
            call.body@ == chat_request_body(
                self.provider_config().model_id@,
                request.prompt@,
                request.seed,
            ),
            option_view_eq(call.bearer_env, auth_env_name_of(self.provider_config())),
            openai_adapter_outcome(self.provider_config()) == Ok::<Seq<char>, ErrorView>(
                self.endpoint_view(),
            ),
            call.bearer_env is Some ==> protected_endpoint(call.endpoint@),
    {
        proof {
            use_type_invariant(self);
            if self.config.auth_ref is Some {
                assert(openai_endpoint(self.config) == Ok::<Seq<char>, ErrorView>(self.endpoint@));
                lemma_credentials_only_over_tls_or_loopback(url_parse(self.endpoint@));
            }
        }
        let mut body: Vec<u8> = Vec::new();
        append_bytes(&mut body, "{\"messages\":[{\"content\":".as_bytes());
        push_json_string(&mut body, request.prompt.as_str());
        append_bytes(&mut body, ",\"role\":\"user\"}],\"model\":".as_bytes());
        push_json_string(&mut body, self.config.model_id.as_str());
        match request.seed {
            Some(n) => {
                append_bytes(&mut body, ",\"seed\":".as_bytes());
                let digits = u64_decimal(n);
                append_bytes(&mut body, digits.as_slice());
            },
            None => {},
        }
        append_bytes(&mut body, ",\"stream\":false}".as_bytes());
        assert(body@ =~= chat_request_body(self.config.model_id@, request.prompt@, request.seed));
        let bearer_env = match self.config.auth_env_name() {
            Some(name) => Some(name.to_owned()),
            None => None,
        };
        ChatRequest { endpoint: self.endpoint.clone(), body, bearer_env }
    }
}

/// An optional string whose view is the given optional text.
pub open spec fn option_view_eq(o: Option<String>, v: Option<Seq<char>>) -> bool {
    match (o, v) {
        (Some(s), Some(t)) => s@ == t,
        (None, None) => true,
        _ => false,
    }
}

} // verus!
