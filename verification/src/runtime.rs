//! The composition root: it admits a configuration, picks the provider adapter,
//! checks each request, and issues the evidence receipt for each answer.
use vstd::prelude::*;
use vstd::utf8::encode_utf8;
use crate::config::{
    auth_env_name_of, provider_config_problem, request_problem, runtime_config_problem, transport_name,
    InferenceRequest, ProviderConfig, ProviderTransport, RuntimeConfig, PROFILE_ID,
};
use crate::digest::{is_hex_digest, sha256, sha256_hex};
use crate::encoding::{append_bytes, lemma_cancel_prefix};
use crate::endpoint::protected_endpoint;
use crate::error::{ErrorView, RuntimeError};
use crate::identity::{
    actor_id, canonical_input_hash, canonical_input_sha256, identity_json, identity_of,
    lemma_identity_json_unambiguous, lemma_peel_string, ProviderIdentity,
};
use crate::json::{json_string, push_json_string};
use crate::provider::{
    chat_request_body, extract_openai_compatible_content, fixture_output, openai_adapter_outcome,
    option_view_eq, read_reply, reply_content, reply_fields, response_content, ChatRequest,
    FixtureProvider, ModelProvider,
    OpenAiCompatibleProvider, ProviderResponse,
};
use crate::text::{eq_ignore_ascii_case, hex_lower, str_eq_ignore_ascii_case};

verus! {

/// The schema of a headless run's result document.
pub const RESULT_SCHEMA: &'static str = "qsol-harness/headless-result/1";

/// The schema of an evidence receipt.
pub const RECEIPT_SCHEMA: &'static str = "qsol-harness-receipt/1";

/// The schema of the document whose digest is a receipt's id.
pub const RECEIPT_MATERIAL_SCHEMA: &'static str = "qsol-harness/receipt-material/1";

/// Who acted, in a receipt.
#[derive(Clone, Debug, PartialEq, Eq)]
pub struct ReceiptActor {
    pub kind: &'static str,
    pub id: String,
}

/// The evidence that one inference took place.
#[derive(Clone, Debug, PartialEq, Eq)]
pub struct EvidenceReceipt {
    pub schema_version: &'static str,
    pub receipt_id: String,
    pub experiment_id: String,
    pub action: &'static str,
    pub input_sha256: String,
    pub output_sha256: String,
    pub evidence_class: &'static str,
    pub actor: ReceiptActor,
    pub status: &'static str,
}

/// The result of one headless run.
#[derive(Clone, Debug, PartialEq, Eq)]
pub struct HeadlessResult {
    pub schema: &'static str,
    pub profile: &'static str,
    pub provider_identity: ProviderIdentity,
    pub output: String,
    pub receipt: EvidenceReceipt,
}

pub struct ReceiptActorView {
    pub kind: Seq<char>,
    pub id: Seq<char>,
}

pub struct EvidenceReceiptView {
    pub schema_version: Seq<char>,
    pub receipt_id: Seq<char>,
    pub experiment_id: Seq<char>,
    pub action: Seq<char>,
    pub input_sha256: Seq<char>,
    pub output_sha256: Seq<char>,
    pub evidence_class: Seq<char>,
    pub actor: ReceiptActorView,
    pub status: Seq<char>,
}

pub struct IdentityView {
    pub provider_id: Seq<char>,
    pub model_id: Seq<char>,
    pub transport: ProviderTransport,
}

pub struct HeadlessResultView {
    pub schema: Seq<char>,
    pub profile: Seq<char>,
    pub provider_identity: IdentityView,
    pub output: Seq<char>,
    pub receipt: EvidenceReceiptView,
}

pub open spec fn identity_view(id: ProviderIdentity) -> IdentityView {
    IdentityView {
        provider_id: id.provider_id@,
        model_id: id.model_id@,
        transport: id.transport,
    }
}

impl View for HeadlessResult {
    type V = HeadlessResultView;

    open spec fn view(&self) -> HeadlessResultView {
        HeadlessResultView {
            schema: self.schema@,
            profile: self.profile@,
            provider_identity: identity_view(self.provider_identity),
            output: self.output@,
            receipt: EvidenceReceiptView {
                schema_version: self.receipt.schema_version@,
                receipt_id: self.receipt.receipt_id@,
                experiment_id: self.receipt.experiment_id@,
                action: self.receipt.action@,
                input_sha256: self.receipt.input_sha256@,
                output_sha256: self.receipt.output_sha256@,
                evidence_class: self.receipt.evidence_class@,
                actor: ReceiptActorView {
                    kind: self.receipt.actor.kind@,
                    id: self.receipt.actor.id@,
                },
                status: self.receipt.status@,
            },
        }
    }
}

/// The document whose digest is a receipt's id: schema, experiment, identity,
/// actor, and the input and output digests.
pub open spec fn receipt_material_document(
    id: ProviderIdentity,
    experiment_id: Seq<char>,
    actor: Seq<char>,
    input_sha256: Seq<char>,
    output_sha256: Seq<char>,
) -> Seq<u8> {
    encode_utf8("{\"schema\":"@) + json_string(RECEIPT_MATERIAL_SCHEMA@) + encode_utf8(
        ",\"experiment_id\":"@,
    ) + json_string(experiment_id) + encode_utf8(",\"provider_identity\":"@) + identity_json(id)
        + encode_utf8(",\"actor_id\":"@) + json_string(actor) + encode_utf8(
        ",\"input_sha256\":"@,
    ) + json_string(input_sha256) + encode_utf8(",\"output_sha256\":"@) + json_string(
        output_sha256,
    ) + encode_utf8("}"@)
}

/// The receipt material after its actor field begins.
spec fn material_tail(actor: Seq<char>, input: Seq<char>, output: Seq<char>) -> Seq<u8> {
    encode_utf8(",\"actor_id\":"@) + json_string(actor) + (encode_utf8(",\"input_sha256\":"@)
        + json_string(input) + (encode_utf8(",\"output_sha256\":"@) + json_string(output)
        + encode_utf8("}"@)))
}

/// The receipt material after its experiment id.
spec fn material_after_experiment(
    id: ProviderIdentity,
    actor: Seq<char>,
    input: Seq<char>,
    output: Seq<char>,
) -> Seq<u8> {
    encode_utf8(",\"provider_identity\":"@) + (identity_json(id) + material_tail(
        actor,
        input,
        output,
    ))
}

/// Regrouping thirteen pieces from left to right into the nesting that the
/// receipt material is read in.
proof fn lemma_regroup_material(
    a1: Seq<u8>,
    a2: Seq<u8>,
    a3: Seq<u8>,
    a4: Seq<u8>,
    a5: Seq<u8>,
    a6: Seq<u8>,
    a7: Seq<u8>,
    a8: Seq<u8>,
    a9: Seq<u8>,
    a10: Seq<u8>,
    a11: Seq<u8>,
    a12: Seq<u8>,
    a13: Seq<u8>,
)
    ensures
        a1 + a2 + a3 + a4 + a5 + a6 + a7 + a8 + a9 + a10 + a11 + a12 + a13 == a1 + a2 + (a3 + a4
            + (a5 + (a6 + (a7 + a8 + (a9 + a10 + (a11 + a12 + a13)))))),
{
    let t1 = a11 + a12 + a13;
    let t2 = a9 + a10 + t1;
    let t3 = a7 + a8 + t2;
    let t4 = a6 + t3;
    let t5 = a5 + t4;
    let t6 = a3 + a4 + t5;
    assert(a1 + a2 + a3 + a4 + a5 + a6 + a7 + a8 + a9 + a10 + a11 + a12 + a13 =~= a1 + a2 + t6);
}

proof fn lemma_material_shape(
    id: ProviderIdentity,
    experiment: Seq<char>,
    actor: Seq<char>,
    input: Seq<char>,
    output: Seq<char>,
)
    ensures
        receipt_material_document(id, experiment, actor, input, output) == encode_utf8(
            "{\"schema\":"@,
        ) + json_string(RECEIPT_MATERIAL_SCHEMA@) + (encode_utf8(",\"experiment_id\":"@)
            + json_string(experiment) + material_after_experiment(id, actor, input, output)),
{
    lemma_regroup_material(
        encode_utf8("{\"schema\":"@),
        json_string(RECEIPT_MATERIAL_SCHEMA@),
        encode_utf8(",\"experiment_id\":"@),
        json_string(experiment),
        encode_utf8(",\"provider_identity\":"@),
        identity_json(id),
        encode_utf8(",\"actor_id\":"@),
        json_string(actor),
        encode_utf8(",\"input_sha256\":"@),
        json_string(input),
        encode_utf8(",\"output_sha256\":"@),
        json_string(output),
        encode_utf8("}"@),
    );
}

/// The receipt material binds what a receipt attests: two material documents
/// agree only when their experiment ids, provider identities, actor ids, input
/// digests and output digests all agree. (Distinct documents then have distinct
/// receipt ids unless SHA-256 collides.)
pub proof fn lemma_receipt_material_binds(
    id1: ProviderIdentity,
    experiment1: Seq<char>,
    actor1: Seq<char>,
    input1: Seq<char>,
    output1: Seq<char>,
    id2: ProviderIdentity,
    experiment2: Seq<char>,
    actor2: Seq<char>,
    input2: Seq<char>,
    output2: Seq<char>,
)
    requires
        receipt_material_document(id1, experiment1, actor1, input1, output1)
            == receipt_material_document(id2, experiment2, actor2, input2, output2),
    ensures
        id1.provider_id@ == id2.provider_id@,
        id1.model_id@ == id2.model_id@,
        id1.transport == id2.transport,
        experiment1 == experiment2,
        actor1 == actor2,
        input1 == input2,
        output1 == output2,
{
    let k1 = encode_utf8("{\"schema\":"@);
    let k2 = encode_utf8(",\"experiment_id\":"@);
    let k3 = encode_utf8(",\"provider_identity\":"@);
    let k4 = encode_utf8(",\"actor_id\":"@);
    let k5 = encode_utf8(",\"input_sha256\":"@);
    let k6 = encode_utf8(",\"output_sha256\":"@);
    let k7 = encode_utf8("}"@);
    let schema = RECEIPT_MATERIAL_SCHEMA@;
    lemma_material_shape(id1, experiment1, actor1, input1, output1);
    lemma_material_shape(id2, experiment2, actor2, input2, output2);
    let ea = material_after_experiment(id1, actor1, input1, output1);
    let eb = material_after_experiment(id2, actor2, input2, output2);
    lemma_peel_string(k1, schema, schema, k2 + json_string(experiment1) + ea, k2 + json_string(
        experiment2,
    ) + eb);
    lemma_peel_string(k2, experiment1, experiment2, ea, eb);
    let ta = material_tail(actor1, input1, output1);
    let tb = material_tail(actor2, input2, output2);
    lemma_cancel_prefix(k3, identity_json(id1) + ta, identity_json(id2) + tb);
    lemma_identity_json_unambiguous(id1, id2, ta, tb);
    let r5a = k6 + json_string(output1) + k7;
    let r5b = k6 + json_string(output2) + k7;
    let r4a = k5 + json_string(input1) + r5a;
    let r4b = k5 + json_string(input2) + r5b;
    lemma_peel_string(k4, actor1, actor2, r4a, r4b);
    lemma_peel_string(k5, input1, input2, r5a, r5b);
    lemma_peel_string(k6, output1, output2, k7, k7);
}

/// The result of answering `request` with `output` under identity `id`.
pub open spec fn expected_result(id: ProviderIdentity, request: InferenceRequest, output: Seq<char>) -> HeadlessResultView {
    let input = canonical_input_hash(id, request);
    let output_hash = hex_lower(sha256(encode_utf8(output)));
    let actor = actor_id(id);
    HeadlessResultView {
        schema: RESULT_SCHEMA@,
        profile: PROFILE_ID@,
        provider_identity: identity_view(id),
        output,
        receipt: EvidenceReceiptView {
            schema_version: RECEIPT_SCHEMA@,
            receipt_id: hex_lower(
                sha256(
                    receipt_material_document(
                        id,
                        request.experiment_id@,
                        actor,
                        input,
                        output_hash,
                    ),
                ),
            ),
            experiment_id: request.experiment_id@,
            action: "model_inference"@,
            input_sha256: input,
            output_sha256: output_hash,
            evidence_class: "MODEL_INFERENCE"@,
            actor: ReceiptActorView { kind: "model"@, id: actor },
            status: "ok"@,
        },
    }
}


/// The adapter a configuration selects.
#[derive(Debug)]
pub enum ProviderAdapter {
    Fixture(FixtureProvider),
    OpenAiCompatible(OpenAiCompatibleProvider),
}

impl ModelProvider for ProviderAdapter {
    open spec fn provider_config(&self) -> ProviderConfig {
        match self {
            ProviderAdapter::Fixture(f) => f.provider_config(),
            ProviderAdapter::OpenAiCompatible(p) => p.provider_config(),
        }
    }

    fn identity(&self) -> (r: ProviderIdentity) {
        match self {
            ProviderAdapter::Fixture(f) => f.identity(),
            ProviderAdapter::OpenAiCompatible(p) => p.identity(),
        }
    }

    fn supports_seed(&self) -> (r: bool) {
        match self {
            ProviderAdapter::Fixture(f) => f.supports_seed(),
            ProviderAdapter::OpenAiCompatible(p) => p.supports_seed(),
        }
    }
}

impl ProviderAdapter {
    /// The configuration the adapter was built from.
    pub fn config(&self) -> (r: &ProviderConfig)
        ensures
            *r == self.provider_config(),
    {
        match self {
            ProviderAdapter::Fixture(f) => f.config(),
            ProviderAdapter::OpenAiCompatible(p) => p.config(),
        }
    }
}

/// Which adapter a configuration selects.
pub enum AdapterChoice {
    Fixture,
    /// The OpenAI-compatible adapter, with the endpoint it posts to.
    OpenAiCompatible(Seq<char>),
}

pub open spec fn choice_of(a: ProviderAdapter) -> AdapterChoice {
    match a {
        ProviderAdapter::Fixture(_) => AdapterChoice::Fixture,
        ProviderAdapter::OpenAiCompatible(p) => AdapterChoice::OpenAiCompatible(p.endpoint_view()),
    }
}

/// The refusal of the deterministic fixture by a build that does not carry it.
pub const FIXTURE_UNAVAILABLE: &'static str = "deterministic fixture is test/CI-only; rebuild with --features ci-fixture for explicit CI execution";

/// The adapter for a provider configuration: none for a configuration with a
/// problem; for the native provider `fixture` (any ASCII case) the fixture when
/// the build carries it (`fixture_enabled`: tests and CI) and otherwise the
/// refusal `FIXTURE_UNAVAILABLE`; the OpenAI-compatible adapter for Ollama, vLLM
/// and OpenAI-compatible transports; and for anything else the provider is
/// unsupported.
pub open spec fn adapter_choice(c: ProviderConfig, fixture_enabled: bool) -> Result<
    AdapterChoice,
    ErrorView,
> {
    match provider_config_problem(c) {
        Some(e) => Err(e),
        None => if c.transport == ProviderTransport::Native && eq_ignore_ascii_case(
            c.provider_id@,
            "fixture"@,
        ) {
            if fixture_enabled {
                Ok(AdapterChoice::Fixture)
            } else {
                Err(ErrorView::UnsupportedProvider(FIXTURE_UNAVAILABLE@))
            }
        } else if c.transport == ProviderTransport::Ollama || c.transport
            == ProviderTransport::Vllm || c.transport == ProviderTransport::OpenaiCompatible {
            match openai_adapter_outcome(c) {
                Ok(endpoint) => Ok(AdapterChoice::OpenAiCompatible(endpoint)),
                Err(e) => Err(e),
            }
        } else {
            Err(unsupported_provider(c))
        },
    }
}

/// The refusal for a provider no adapter serves: `<provider id> via <transport>`.
pub open spec fn unsupported_provider(c: ProviderConfig) -> ErrorView {
    ErrorView::UnsupportedProvider(c.provider_id@ + " via "@ + transport_name(c.transport))
}

/// The note `run` gives for an adapter that is answered over the network:
/// `<provider id> via <transport>` and the way to answer it, through `prepare`,
/// the caller's own call, and `PreparedInference::finish`.
pub open spec fn remote_call_required(c: ProviderConfig) -> ErrorView {
    ErrorView::UnsupportedProvider(
        c.provider_id@ + " via "@ + transport_name(c.transport) + REMOTE_CALL_NOTE@,
    )
}

/// What `run` adds for an adapter that is answered over the network.
pub const REMOTE_CALL_NOTE: &'static str = " is answered over the network: call prepare, send the chat request, then finish";

fn remote_call_required_error(config: &ProviderConfig) -> (e: RuntimeError)
    ensures
        e@ == remote_call_required(*config),
{
    let mut message = config.provider_id.clone();
    message.append(" via ");
    message.append(config.transport.as_str());
    message.append(REMOTE_CALL_NOTE);
    RuntimeError::UnsupportedProvider(message)
}

fn unsupported_provider_error(config: &ProviderConfig) -> (e: RuntimeError)
    ensures
        e@ == unsupported_provider(*config),
{
    let mut message = config.provider_id.clone();
    message.append(" via ");
    message.append(config.transport.as_str());
    RuntimeError::UnsupportedProvider(message)
}

/// Checks a provider configuration and builds the adapter it selects, in a
/// build that carries the deterministic fixture when `fixture_enabled` holds.
pub fn build_provider(config: ProviderConfig, fixture_enabled: bool) -> (r: Result<
    ProviderAdapter,
    RuntimeError,
>)
    ensures
        match r {
            Ok(a) => a.provider_config() == config && adapter_choice(config, fixture_enabled)
                == Ok::<AdapterChoice, ErrorView>(choice_of(a)),
            Err(e) => adapter_choice(config, fixture_enabled) == Err::<AdapterChoice, ErrorView>(
                e@,
            ),
        },
{
    config.validate()?;
    if config.transport == ProviderTransport::Native && str_eq_ignore_ascii_case(
        config.provider_id.as_str(),
        "fixture",
    ) {
        if fixture_enabled {
            return Ok(ProviderAdapter::Fixture(FixtureProvider::new(config)));
        }
        return Err(RuntimeError::UnsupportedProvider(FIXTURE_UNAVAILABLE.to_owned()));
    }
    if config.transport == ProviderTransport::Ollama || config.transport == ProviderTransport::Vllm
        || config.transport == ProviderTransport::OpenaiCompatible {
        let adapter = OpenAiCompatibleProvider::new(config)?;
        return Ok(ProviderAdapter::OpenAiCompatible(adapter));
    }
    Err(unsupported_provider_error(&config))
}

/// The runtime, built from an admitted configuration.
pub struct CompositionRoot {
    pub(crate) provider: ProviderAdapter,
}

/// How a prepared inference is answered.
pub enum InferenceCall {
    /// The adapter computed the answer itself.
    Answered(String),
    /// The answer must be fetched with this chat-completion call.
    Remote(ChatRequest),
}

/// A request that passed the checks, with the identity that answers it and the
/// digest that binds the two. It is made only by `CompositionRoot::prepare`.
pub struct PreparedInference {
    pub(crate) request: InferenceRequest,
    pub(crate) identity: ProviderIdentity,
    pub(crate) input_sha256: String,
}

/// What is wrong with a request for a provider: the request's own problem, then
/// a missing seed when the provider takes one.
pub open spec fn run_problem(c: ProviderConfig, request: InferenceRequest) -> Option<ErrorView> {
    if request_problem(request) is Some {
        request_problem(request)
    } else if c.capabilities.seed && request.seed is None {
        Some(ErrorView::MissingSeed)
    } else {
        None
    }
}

/// Every digest in a result renders as 64 lower-case hexadecimal digits, and the
/// actor id is `model-sha256:` and such a digest (77 characters).
pub open spec fn digests_rendered(h: HeadlessResultView) -> bool {
    &&& is_hex_digest(h.receipt.receipt_id)
    &&& is_hex_digest(h.receipt.input_sha256)
    &&& is_hex_digest(h.receipt.output_sha256)
    &&& h.receipt.actor.id.len() == 77
    &&& h.receipt.actor.id.take(13) == "model-sha256:"@
    &&& is_hex_digest(h.receipt.actor.id.skip(13))
}

impl PreparedInference {
    /// The input digest is the canonical hash of the request under the identity.
    #[verifier::type_invariant]
    spec fn well_formed(self) -> bool {
        &&& self.input_sha256@ == canonical_input_hash(self.identity, self.request)
        &&& is_hex_digest(self.input_sha256@)
    }

    /// The request being answered.
    pub closed spec fn prepared_request(self) -> InferenceRequest {
        self.request
    }

    /// The identity that answers it.
    pub closed spec fn prepared_identity(self) -> ProviderIdentity {
        self.identity
    }

    /// The request being answered.
    pub fn request(&self) -> (r: &InferenceRequest)
        ensures
            *r == self.prepared_request(),
    {
        &self.request
    }

    /// The identity that answers it.
    pub fn identity(&self) -> (r: &ProviderIdentity)
        ensures
            *r == self.prepared_identity(),
    {
        &self.identity
    }

    /// The canonical input digest of the request under the identity.
    pub fn input_sha256(&self) -> (r: &str)
        ensures
            r@ == canonical_input_hash(self.prepared_identity(), self.prepared_request()),
            is_hex_digest(r@),
    {
        proof {
            use_type_invariant(self);
        }
        self.input_sha256.as_str()
    }

    /// Issues the result and receipt for `output` as the answer.
    pub fn complete(self, output: String) -> (r: HeadlessResult)
        ensures
            r@ == expected_result(self.prepared_identity(), self.prepared_request(), output@),
            digests_rendered(r@),
    {
        proof {
            use_type_invariant(&self);
        }
        let PreparedInference { request, identity, input_sha256 } = self;
        let output_sha256 = sha256_hex(output.as_str().as_bytes());
        let actor = identity.receipt_actor_id();
        let mut material: Vec<u8> = Vec::new();
        append_bytes(&mut material, "{\"schema\":".as_bytes());
        push_json_string(&mut material, RECEIPT_MATERIAL_SCHEMA);
        append_bytes(&mut material, ",\"experiment_id\":".as_bytes());
        push_json_string(&mut material, request.experiment_id.as_str());
        append_bytes(&mut material, ",\"provider_identity\":".as_bytes());
        identity.write_json(&mut material);
        append_bytes(&mut material, ",\"actor_id\":".as_bytes());
        push_json_string(&mut material, actor.as_str());
        append_bytes(&mut material, ",\"input_sha256\":".as_bytes());
        push_json_string(&mut material, input_sha256.as_str());
        append_bytes(&mut material, ",\"output_sha256\":".as_bytes());
        push_json_string(&mut material, output_sha256.as_str());
        append_bytes(&mut material, "}".as_bytes());
        assert(material@ =~= receipt_material_document(
            identity,
            request.experiment_id@,
            actor@,
            input_sha256@,
            output_sha256@,
        ));
        let receipt_id = sha256_hex(material.as_slice());
        let receipt = EvidenceReceipt {
            schema_version: RECEIPT_SCHEMA,
            receipt_id,
            experiment_id: request.experiment_id,
            action: "model_inference",
            input_sha256,
            output_sha256,
            evidence_class: "MODEL_INFERENCE",
            actor: ReceiptActor { kind: "model", id: actor },
            status: "ok",
        };
        HeadlessResult {
            schema: RESULT_SCHEMA,
            profile: PROFILE_ID,
            provider_identity: identity,
            output,
            receipt,
        }
    }

    /// Reads a chat-completion reply body, takes the answer out of it, and issues
    /// the result for it.
    pub fn finish_reply(self, body: &[u8]) -> (r: Result<HeadlessResult, RuntimeError>)
        ensures
            match reply_fields(body@) {
                None => r matches Err(e) && e@ == ErrorView::Json,
                Some((model, content)) => match reply_content(
                    model,
                    content,
                    self.prepared_identity().model_id@,
                ) {
                    Err(e) => r matches Err(f) && f@ == e,
                    Ok(answer) => r matches Ok(h) && h@ == expected_result(
                        self.prepared_identity(),
                        self.prepared_request(),
                        answer,
                    ) && digests_rendered(h@),
                },
            },
    {
        let response = read_reply(body)?;
        self.finish(&response)
    }

    /// Takes the answer out of a chat-completion reply and issues the result for it.
    pub fn finish(self, response: &ProviderResponse) -> (r: Result<HeadlessResult, RuntimeError>)
        ensures
            match response_content(*response, self.prepared_identity().model_id@) {
                Err(e) => r matches Err(f) && f@ == e,
                Ok(content) => r matches Ok(h) && h@ == expected_result(
                    self.prepared_identity(),
                    self.prepared_request(),
                    content,
                ) && digests_rendered(h@),
            },
    {
        let output = extract_openai_compatible_content(response, self.identity.model_id.as_str())?;
        Ok(self.complete(output))
    }
}

impl CompositionRoot {
    /// The adapter the root runs.
    pub closed spec fn adapter_of(self) -> ProviderAdapter {
        self.provider
    }

    pub open spec fn config(self) -> ProviderConfig {
        self.adapter_of().provider_config()
    }

    pub open spec fn choice(self) -> AdapterChoice {
        choice_of(self.adapter_of())
    }

    /// The adapter the root runs.
    pub fn adapter(&self) -> (r: &ProviderAdapter)
        ensures
            *r == self.adapter_of(),
    {
        &self.provider
    }

    /// Admits a configuration and builds the runtime for it, in a build that
    /// carries the deterministic fixture (as tests and CI do).
    pub fn from_config(config: RuntimeConfig) -> (r: Result<Self, RuntimeError>)
        ensures
            match r {
                Ok(root) => runtime_config_problem(config) is None && root.config()
                    == config.provider && adapter_choice(config.provider, true) == Ok::<
                    AdapterChoice,
                    ErrorView,
                >(root.choice()),
                Err(e) => match runtime_config_problem(config) {
                    Some(p) => e@ == p,
                    None => adapter_choice(config.provider, true) == Err::<
                        AdapterChoice,
                        ErrorView,
                    >(e@),
                },
            },
    {
        Self::from_config_with(config, true)
    }

    /// Admits a configuration and builds the runtime for it, in a build that
    /// carries the deterministic fixture exactly when `fixture_enabled` holds.
    pub fn from_config_with(config: RuntimeConfig, fixture_enabled: bool) -> (r: Result<
        Self,
        RuntimeError,
    >)
        ensures
            match r {
                Ok(root) => runtime_config_problem(config) is None && root.config()
                    == config.provider && adapter_choice(config.provider, fixture_enabled) == Ok::<
                    AdapterChoice,
                    ErrorView,
                >(root.choice()),
                Err(e) => match runtime_config_problem(config) {
                    Some(p) => e@ == p,
                    None => adapter_choice(config.provider, fixture_enabled) == Err::<
                        AdapterChoice,
                        ErrorView,
                    >(e@),
                },
            },
    {
        config.validate()?;
        let provider = build_provider(config.provider, fixture_enabled)?;
        Ok(CompositionRoot { provider })
    }

    /// Checks a request and gets ready to answer it: the identity, the input
    /// digest, and either the fixture's answer or the chat-completion call to make.
    pub fn prepare(&self, request: InferenceRequest) -> (r: Result<
        (PreparedInference, InferenceCall),
        RuntimeError,
    >)
        ensures
            match r {
                Ok((p, call)) => {
                    &&& run_problem(self.config(), request) is None
                    &&& p.prepared_request() == request
                    &&& p.prepared_identity() == identity_of(self.config())
                    &&& match self.adapter_of() {
                        ProviderAdapter::Fixture(f) => call matches InferenceCall::Answered(o)
                            && o@ == fixture_output(f.provider_config(), request),
                        ProviderAdapter::OpenAiCompatible(a) => call matches InferenceCall::Remote(
                            call,
                        ) && call.endpoint@ == a.endpoint_view() && call.body@ == chat_request_body(
                            a.provider_config().model_id@,
                            request.prompt@,
                            request.seed,
                        ) && option_view_eq(call.bearer_env, auth_env_name_of(a.provider_config()))
                            && (call.bearer_env is Some ==> protected_endpoint(call.endpoint@)),
                    }
                },
                Err(e) => run_problem(self.config(), request) == Some(e@),
            },
    {
        request.validate()?;
        if self.provider.supports_seed() && request.seed.is_none() {
            return Err(RuntimeError::MissingSeed);
        }
        let identity = self.provider.identity();
        let input_sha256 = canonical_input_sha256(&identity, &request)?;
        let call = match &self.provider {
            ProviderAdapter::Fixture(f) => InferenceCall::Answered(f.infer(&request)?),
            ProviderAdapter::OpenAiCompatible(a) => InferenceCall::Remote(a.chat_request(&request)),
        };
        Ok((PreparedInference { request, identity, input_sha256 }, call))
    }

    /// Runs one inference to its result. Adapters that must reach a provider over
    /// the network are answered through `prepare` and `PreparedInference::finish`
    /// by the caller that performs the call; here `run` refuses them with a note
    /// that says so (`remote_call_required`).
    pub fn run(&self, request: InferenceRequest) -> (r: Result<HeadlessResult, RuntimeError>)
        ensures
            match run_problem(self.config(), request) {
                Some(p) => r matches Err(e) && e@ == p,
                None => match self.adapter_of() {
                    ProviderAdapter::Fixture(f) => r matches Ok(h) && h@ == expected_result(
                        identity_of(f.provider_config()),
                        request,
                        fixture_output(f.provider_config(), request),
                    ) && digests_rendered(h@),
                    ProviderAdapter::OpenAiCompatible(a) => r matches Err(e) && e@
                        == remote_call_required(a.provider_config()),
                },
            },
    {
        let (prepared, call) = self.prepare(request)?;
        match call {
            InferenceCall::Answered(output) => Ok(prepared.complete(output)),
            InferenceCall::Remote(_) => Err(remote_call_required_error(self.provider.config())),
        }
    }
}

} // verus!
