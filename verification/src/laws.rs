//! Properties the runtime keeps across its operations.
use vstd::prelude::*;
use crate::config::{
    env_prefix, provider_config_problem, request_problem, runtime_config_problem, InferenceRequest,
    ProviderConfig, ProviderTransport, RuntimeConfig, PROFILE_ID,
};
use crate::endpoint::{endpoint_outcome, host_is_loopback, url_parse, EndpointView};
use crate::error::ErrorView;
use crate::identity::identity_of;
use crate::cli::{
    command_line_outcome, flag_index_from, flag_value, parsed_u64, without_line_ending,
    DEFAULT_EXPERIMENT_ID,
};
use crate::digest::sha256;
use crate::identity::{actor_id, canonical_input_hash};
use crate::text::hex_lower;
use vstd::utf8::{encode_utf8, is_ascii_chars, is_ascii_chars_encode_utf8};
use crate::encoding::{decimal, lemma_decimal_digits};
use crate::json::json_string;
use crate::provider::{
    chat_request_body, fixture_output, openai_adapter_outcome, openai_endpoint, reply_content, response_content,
    ProviderResponse, OLLAMA_DEFAULT_ENDPOINT,
};
use crate::runtime::{
    adapter_choice, expected_result, run_problem, AdapterChoice, HeadlessResult, FIXTURE_UNAVAILABLE,
};
use crate::text::{eq_ignore_ascii_case, has_prefix, is_blank};

verus! {

/// A configuration the runtime admits names the evaluation profile, has
/// non-blank provider and model ids, holds no raw credential (a credential
/// reference is always `env:` and a non-blank variable name), and sets no zero
/// token limit.
pub proof fn lemma_admitted_config_is_sound(config: RuntimeConfig)
    requires
        runtime_config_problem(config) is None,
    ensures
        config.profile@ == PROFILE_ID@,
        !is_blank(config.provider.provider_id@),
        !is_blank(config.provider.model_id@),
        config.provider.auth_ref matches Some(r) ==> has_prefix(r@, env_prefix()) && !is_blank(
            r@.skip(env_prefix().len() as int),
        ),
        config.provider.generation matches Some(g) ==> g.max_tokens != Some(0u64),
{
}

/// A provider that takes a seed refuses a well-formed request without one.
pub proof fn lemma_seedless_request_fails_closed(config: ProviderConfig, request: InferenceRequest)
    requires
        request_problem(request) is None,
        config.capabilities.seed,
        request.seed is None,
    ensures
        run_problem(config, request) == Some(ErrorView::MissingSeed),
{
}

/// Running the same request twice on the fixture yields the same output and the
/// same receipt: the result is determined by the configuration and the request.
pub proof fn lemma_same_request_same_result(
    config: ProviderConfig,
    request: InferenceRequest,
    first: HeadlessResult,
    second: HeadlessResult,
)
    requires
        first@ == expected_result(identity_of(config), request, fixture_output(config, request)),
        second@ == expected_result(identity_of(config), request, fixture_output(config, request)),
    ensures
        first@.output == second@.output,
        first@.receipt == second@.receipt,
{
}

/// A reply is accepted only when it names the requested model.
pub proof fn lemma_accepted_reply_names_requested_model(
    response: ProviderResponse,
    expected_model: Seq<char>,
)
    requires
        response_content(response, expected_model) is Ok,
    ensures
        response.model matches Some(m) && m@ == expected_model,
        response.content is Some,
{
}

/// An endpoint accepted for sending credentials carries none itself and is
/// reached over HTTPS, or over plain HTTP only when its host is the local machine.
pub proof fn lemma_credentials_only_over_tls_or_loopback(parsed: Result<EndpointView, Seq<char>>)
    requires
        endpoint_outcome(parsed, true) is Ok,
    ensures
        parsed matches Ok(p) && p.username.len() == 0 && p.password is None && (p.scheme
            == "https"@ || (p.scheme == "http"@ && host_is_loopback(p))),
{
}

/// The OpenAI-compatible adapter of a configuration that references a credential
/// posts only to an endpoint over HTTPS or to a loopback host over HTTP.
pub proof fn lemma_adapter_with_credential_is_protected(
    config: ProviderConfig,
    fixture_enabled: bool,
    endpoint: Seq<char>,
)
    requires
        adapter_choice(config, fixture_enabled) == Ok::<AdapterChoice, ErrorView>(
            AdapterChoice::OpenAiCompatible(endpoint),
        ),
        config.auth_ref is Some,
    ensures
        url_parse(endpoint) matches Ok(p) && (p.scheme == "https"@ || (p.scheme == "http"@
            && host_is_loopback(p))),
{
    assert(openai_adapter_outcome(config) == Ok::<Seq<char>, ErrorView>(endpoint));
    assert(openai_endpoint(config) == Ok::<Seq<char>, ErrorView>(endpoint));
    lemma_credentials_only_over_tls_or_loopback(url_parse(endpoint));
}

/// The deterministic fixture serves only the native provider named `fixture`,
/// and only in a build that carries it.
pub proof fn lemma_fixture_only_for_native_fixture(config: ProviderConfig, fixture_enabled: bool)
    requires
        adapter_choice(config, fixture_enabled) == Ok::<AdapterChoice, ErrorView>(
            AdapterChoice::Fixture,
        ),
    ensures
        fixture_enabled,
        config.transport == ProviderTransport::Native,
        eq_ignore_ascii_case(config.provider_id@, "fixture"@),
{
}

/// A build without the fixture refuses a sound fixture configuration with
/// `FIXTURE_UNAVAILABLE`, and so never issues a fixture receipt.
pub proof fn lemma_fixture_refused_outside_ci(config: ProviderConfig)
    requires
        provider_config_problem(config) is None,
        config.transport == ProviderTransport::Native,
        eq_ignore_ascii_case(config.provider_id@, "fixture"@),
    ensures
        adapter_choice(config, false) == Err::<AdapterChoice, ErrorView>(
            ErrorView::UnsupportedProvider(FIXTURE_UNAVAILABLE@),
        ),
{
}

/// xAI is never served: whatever its transport, a configuration for the
/// provider `xai` (in any ASCII case) is refused as unsupported.
pub proof fn lemma_xai_is_not_served(config: ProviderConfig, fixture_enabled: bool)
    requires
        provider_config_problem(config) is None,
        eq_ignore_ascii_case(config.provider_id@, "xai"@),
    ensures
        adapter_choice(config, fixture_enabled) matches Err(e) && e is UnsupportedProvider,
{
    reveal_strlit("xai");
    reveal_strlit("fixture");
}

/// A sound configuration is admitted: non-blank provider and model ids, a
/// credential reference that is `env:` and a non-blank name (or none), and a
/// token limit other than zero (or none) leave nothing to refuse, whatever the
/// other generation settings (such as the seed) are.
pub proof fn lemma_sound_config_is_admitted(c: ProviderConfig)
    requires
        !is_blank(c.provider_id@),
        !is_blank(c.model_id@),
        c.auth_ref matches Some(r) ==> has_prefix(r@, "env:"@) && !is_blank(r@.skip(4)),
        c.generation matches Some(g) ==> g.max_tokens != Some(0u64),
    ensures
        provider_config_problem(c) is None,
{
    reveal_strlit("env:");
}

/// A runtime configuration that names the profile and has a sound provider is admitted.
pub proof fn lemma_sound_runtime_config_is_admitted(config: RuntimeConfig)
    requires
        config.profile@ == PROFILE_ID@,
        provider_config_problem(config.provider) is None,
    ensures
        runtime_config_problem(config) is None,
{
}

/// A request is well-formed exactly when its experiment id is not blank and its
/// prompt is not empty.
pub proof fn lemma_request_problem_exactly(r: InferenceRequest)
    ensures
        (request_problem(r) is None) == (!is_blank(r.experiment_id@) && r.prompt@.len() > 0),
{
}

/// Of a well-formed request, only a missing seed is refused, and only by a
/// provider that takes one: any seed, zero included, is a seed.
pub proof fn lemma_only_a_missing_seed_is_refused(c: ProviderConfig, r: InferenceRequest)
    requires
        !is_blank(r.experiment_id@),
        r.prompt@.len() > 0,
    ensures
        r.seed is Some ==> run_problem(c, r) is None,
        !c.capabilities.seed ==> run_problem(c, r) is None,
        (run_problem(c, r) == Some(ErrorView::MissingSeed)) == (c.capabilities.seed
            && r.seed is None),
        run_problem(c, r) is None || run_problem(c, r) == Some(ErrorView::MissingSeed),
{
}

/// A badly formed request is refused for the request itself, before any seed check.
pub proof fn lemma_request_problem_comes_first(c: ProviderConfig, r: InferenceRequest)
    requires
        is_blank(r.experiment_id@) || r.prompt@.len() == 0,
    ensures
        run_problem(c, r) matches Some(ErrorView::Config(_)),
{
}

/// The answer taken from an accepted reply is exactly the reply's content, and a
/// reply that names the requested model and has content is accepted.
pub proof fn lemma_reply_answer_is_its_content(
    model: Option<Seq<char>>,
    content: Option<Seq<char>>,
    expected_model: Seq<char>,
)
    ensures
        reply_content(model, content, expected_model) matches Ok(x) ==> model == Some(
            expected_model,
        ) && content == Some(x),
        model == Some(expected_model) && content is Some ==> reply_content(
            model,
            content,
            expected_model,
        ) == Ok::<Seq<char>, ErrorView>(content->0),
        model is None || model != Some(expected_model) || content is None ==> reply_content(
            model,
            content,
            expected_model,
        ) is Err,
{
}

/// The same, for a reply as the library holds it.
pub proof fn lemma_response_answer_is_its_content(response: ProviderResponse, expected_model: Seq<char>)
    ensures
        response_content(response, expected_model) matches Ok(x) ==> response.content matches Some(
            c,
        ) && c@ == x,
        response.model is Some && response.model->0@ == expected_model && response.content is Some
            ==> response_content(response, expected_model) == Ok::<Seq<char>, ErrorView>(
            response.content->0@,
        ),
{
    lemma_reply_answer_is_its_content(
        crate::endpoint::option_view(response.model),
        crate::endpoint::option_view(response.content),
        expected_model,
    );
}

/// A result carries the answer it was issued for, under the identity and for the
/// experiment of the request.
pub proof fn lemma_result_carries_its_answer(
    id: crate::identity::ProviderIdentity,
    r: InferenceRequest,
    output: Seq<char>,
)
    ensures
        expected_result(id, r, output).output == output,
        expected_result(id, r, output).receipt.experiment_id == r.experiment_id@,
        expected_result(id, r, output).provider_identity.provider_id == id.provider_id@,
        expected_result(id, r, output).provider_identity.model_id == id.model_id@,
        expected_result(id, r, output).provider_identity.transport == id.transport,
        expected_result(id, r, output).receipt.input_sha256 == canonical_input_hash(id, r),
        expected_result(id, r, output).receipt.output_sha256 == hex_lower(
            sha256(encode_utf8(output)),
        ),
        expected_result(id, r, output).receipt.actor.id == actor_id(id),
{
}

/// The fixture's answer is `fixture:`, the model id, `:`, and the input digest
/// that the receipt issued for the same request records.
pub proof fn lemma_fixture_answer_ends_with_input_digest(c: ProviderConfig, r: InferenceRequest)
    ensures
        fixture_output(c, r) == "fixture:"@ + c.model_id@ + ":"@ + expected_result(
            identity_of(c),
            r,
            fixture_output(c, r),
        ).receipt.input_sha256,
{
}

/// The configuration refusals: a blank provider or model id, a credential
/// reference that is not `env:NAME` (a raw credential), and a zero token limit
/// are each refused.
pub proof fn lemma_unsound_config_is_refused(c: ProviderConfig)
    requires
        is_blank(c.provider_id@) || is_blank(c.model_id@) || (c.auth_ref matches Some(r)
            && !has_prefix(r@, "env:"@)) || (c.generation matches Some(g) && g.max_tokens == Some(
            0u64,
        )),
    ensures
        provider_config_problem(c) matches Some(ErrorView::Config(_)),
{
    reveal_strlit("env:");
}

/// A profile other than the evaluation profile is refused.
pub proof fn lemma_wrong_profile_is_refused(config: RuntimeConfig)
    requires
        config.profile@ != PROFILE_ID@,
    ensures
        runtime_config_problem(config) matches Some(ErrorView::Config(_)),
{
}

/// Credentials over plain HTTP to a host that is not the local machine are
/// refused; without credentials, any endpoint that embeds none is accepted.
pub proof fn lemma_endpoint_rules(p: EndpointView, will_attach_credentials: bool)
    ensures
        p.username.len() != 0 || p.password is Some ==> endpoint_outcome(
            Ok::<EndpointView, Seq<char>>(p),
            will_attach_credentials,
        ) is Err,
        will_attach_credentials && p.scheme == "http"@ && !host_is_loopback(p) ==> endpoint_outcome(
            Ok::<EndpointView, Seq<char>>(p),
            true,
        ) is Err,
        p.username.len() == 0 && p.password is None ==> endpoint_outcome(
            Ok::<EndpointView, Seq<char>>(p),
            false,
        ) is Ok,
        p.username.len() == 0 && p.password is None && p.scheme == "https"@ ==> endpoint_outcome(
            Ok::<EndpointView, Seq<char>>(p),
            true,
        ) is Ok,
{
    reveal_strlit("https");
    reveal_strlit("http");
    assert("http"@.len() == 4 && "https"@.len() == 5);
    assert("http"@ != "https"@);
}

/// A text that does not parse as a URL is refused as an endpoint.
pub proof fn lemma_unparsable_endpoint_is_refused(message: Seq<char>, will_attach_credentials: bool)
    ensures
        endpoint_outcome(Err::<EndpointView, Seq<char>>(message), will_attach_credentials) is Err,
{
}

/// The host `localhost` in any ASCII case is the local machine.
pub proof fn lemma_localhost_is_loopback(p: EndpointView)
    requires
        p.host matches Some(h) && eq_ignore_ascii_case(h, "localhost"@),
    ensures
        host_is_loopback(p),
{
}

/// A prompt read from standard input loses exactly one final line ending, `\n`
/// or `\r\n`, and nothing else.
pub proof fn lemma_line_ending_trim(text: Seq<char>)
    ensures
        without_line_ending(text + "\n"@) == text || (text.len() > 0 && text.last() == '\r'
            && without_line_ending(text + "\n"@) == text.drop_last()),
        without_line_ending(text + "\r\n"@) == text,
        (text.len() == 0 || text.last() != '\n') ==> without_line_ending(text) == text,
        (text.len() == 0 || text.last() != '\r') ==> without_line_ending(text + "\n"@) == text,
{
    reveal_strlit("\n");
    reveal_strlit("\r");
    reveal_strlit("\r\n");
    assert((text + "\n"@).drop_last() =~= text);
    assert((text + "\r\n"@).drop_last() =~= text + "\r"@);
    assert((text + "\r"@).drop_last() =~= text);
    let t = text + "\n"@;
    assert(t.subrange(t.len() - 1, t.len() as int) =~= "\n"@);
    let u = text + "\r\n"@;
    assert(u.subrange(u.len() - 1, u.len() as int) =~= "\n"@);
    let v = text + "\r"@;
    assert(v.subrange(v.len() - 1, v.len() as int) =~= "\r"@);
    if text.len() > 0 {
        assert(text.subrange(text.len() - 1, text.len() as int)[0] == text.last());
    }
}

/// Every chat-completion transport (Ollama, vLLM, OpenAI-compatible) of a sound
/// configuration selects the OpenAI-compatible adapter with the endpoint its
/// checks chose, in any build.
pub proof fn lemma_chat_transports_select_the_chat_adapter(
    c: ProviderConfig,
    fixture_enabled: bool,
    endpoint: Seq<char>,
)
    requires
        provider_config_problem(c) is None,
        c.transport == ProviderTransport::Ollama || c.transport == ProviderTransport::Vllm
            || c.transport == ProviderTransport::OpenaiCompatible,
        openai_adapter_outcome(c) == Ok::<Seq<char>, ErrorView>(endpoint),
    ensures
        adapter_choice(c, fixture_enabled) == Ok::<AdapterChoice, ErrorView>(
            AdapterChoice::OpenAiCompatible(endpoint),
        ),
{
}

/// A chat adapter for a provider other than xAI posts to the configured
/// endpoint, once the endpoint parses without embedded credentials (and, when a
/// credential is referenced, passes the HTTPS-or-loopback rule).
pub proof fn lemma_configured_endpoint_is_used(c: ProviderConfig, p: EndpointView)
    requires
        !eq_ignore_ascii_case(c.provider_id@, "xai"@),
        c.endpoint is Some,
        url_parse(c.endpoint->0@) == Ok::<EndpointView, Seq<char>>(p),
        p.username.len() == 0,
        p.password is None,
        c.auth_ref is Some ==> p.scheme == "https"@ || (p.scheme == "http"@ && host_is_loopback(p)),
    ensures
        openai_adapter_outcome(c) == Ok::<Seq<char>, ErrorView>(c.endpoint->0@),
{
}

/// An Ollama provider with no endpoint configured posts to the local default.
pub proof fn lemma_ollama_defaults_to_local(c: ProviderConfig, p: EndpointView)
    requires
        !eq_ignore_ascii_case(c.provider_id@, "xai"@),
        c.transport == ProviderTransport::Ollama,
        c.endpoint is None,
        url_parse(OLLAMA_DEFAULT_ENDPOINT@) == Ok::<EndpointView, Seq<char>>(p),
        p.username.len() == 0,
        p.password is None,
        c.auth_ref is Some ==> p.scheme == "https"@ || (p.scheme == "http"@ && host_is_loopback(p)),
    ensures
        openai_adapter_outcome(c) == Ok::<Seq<char>, ErrorView>(OLLAMA_DEFAULT_ENDPOINT@),
{
}

/// In a build that carries it, the native provider `fixture` of a sound
/// configuration selects the fixture.
pub proof fn lemma_fixture_served_in_ci(c: ProviderConfig)
    requires
        provider_config_problem(c) is None,
        c.transport == ProviderTransport::Native,
        eq_ignore_ascii_case(c.provider_id@, "fixture"@),
    ensures
        adapter_choice(c, true) == Ok::<AdapterChoice, ErrorView>(AdapterChoice::Fixture),
{
}

/// The flag lookup finds the first occurrence of the flag that has a value
/// after it, and gives that value.
pub proof fn lemma_flag_value_is_first_occurrence(args: Seq<String>, flag: Seq<char>, i: int)
    requires
        0 <= i,
        i + 1 < args.len(),
        args[i]@ == flag,
        forall|j: int| 0 <= j < i ==> #[trigger] args[j]@ != flag,
    ensures
        flag_value(args, flag) == Some(args[i + 1]@),
{
    lemma_first_flag_from(args, flag, i, 0);
}

proof fn lemma_first_flag_from(args: Seq<String>, flag: Seq<char>, i: int, k: int)
    requires
        0 <= k <= i,
        i + 1 < args.len(),
        args[i]@ == flag,
        forall|j: int| k <= j < i ==> #[trigger] args[j]@ != flag,
    ensures
        flag_index_from(args, flag, k) == Some(i),
    decreases i - k,
{
    if k < i {
        lemma_first_flag_from(args, flag, i, k + 1);
    }
}

/// Without an occurrence of the flag that has a value after it, the lookup finds nothing.
pub proof fn lemma_flag_value_absent(args: Seq<String>, flag: Seq<char>)
    requires
        forall|j: int| 0 <= j && j + 1 < args.len() ==> #[trigger] args[j]@ != flag,
    ensures
        flag_value(args, flag) is None,
{
    lemma_no_flag_from(args, flag, 0);
}

proof fn lemma_no_flag_from(args: Seq<String>, flag: Seq<char>, k: int)
    requires
        0 <= k,
        forall|j: int| k <= j && j + 1 < args.len() ==> #[trigger] args[j]@ != flag,
    ensures
        flag_index_from(args, flag, k) is None,
    decreases args.len() - k,
{
    if k + 1 < args.len() {
        lemma_no_flag_from(args, flag, k + 1);
    }
}

/// An accepted command line takes each value from the first occurrence of its
/// flag: the configuration path after `--config`, the prompt after `--prompt`,
/// the experiment id after `--experiment-id` (or `qsol-headless` without it),
/// and the seed as the number after `--seed` (or none without it).
pub proof fn lemma_command_line_reads_its_flags(args: Seq<String>)
    requires
        command_line_outcome(args) is Ok,
    ensures
        command_line_outcome(args) matches Ok((config, prompt, experiment, seed)) && {
            &&& flag_value(args, "--config"@) == Some(config)
            &&& flag_value(args, "--prompt"@) == Some(prompt)
            &&& (flag_value(args, "--experiment-id"@) matches Some(v) ==> experiment == v)
            &&& (flag_value(args, "--experiment-id"@) is None ==> experiment
                == DEFAULT_EXPERIMENT_ID@)
            &&& (flag_value(args, "--seed"@) matches Some(v) ==> parsed_u64(v) == seed
                && seed is Some)
            &&& (flag_value(args, "--seed"@) is None ==> seed is None)
        },
{
}

/// The experiment id of an accepted command line is the value after the first
/// `--experiment-id`.
pub proof fn lemma_experiment_id_is_taken_from_its_flag(args: Seq<String>, i: int)
    requires
        command_line_outcome(args) is Ok,
        0 <= i,
        i + 1 < args.len(),
        args[i]@ == "--experiment-id"@,
        forall|j: int| 0 <= j < i ==> #[trigger] args[j]@ != "--experiment-id"@,
    ensures
        command_line_outcome(args) matches Ok((_, _, experiment, _)) && experiment == args[i + 1]@,
{
    lemma_flag_value_is_first_occurrence(args, "--experiment-id"@, i);
    lemma_command_line_reads_its_flags(args);
}

/// A request's seed is sent: the chat body of a seeded request is the body of
/// the same request without a seed, with `,"seed":` and the seed's decimal
/// digits inserted before the closing `,"stream":false}`.
pub proof fn lemma_seed_is_sent(model: Seq<char>, prompt: Seq<char>, seed: u64)
    ensures
        chat_request_body(model, prompt, Some(seed)).len() > chat_request_body(
            model,
            prompt,
            None,
        ).len(),
        chat_request_body(model, prompt, Some(seed)) == chat_request_body(model, prompt, None).take(
            chat_request_body(model, prompt, None).len() - encode_utf8(",\"stream\":false}"@).len(),
        ) + encode_utf8(",\"seed\":"@) + decimal(seed as nat) + encode_utf8(
            ",\"stream\":false}"@,
        ),
{
    let head = encode_utf8("{\"messages\":[{\"content\":"@) + json_string(prompt) + encode_utf8(
        ",\"role\":\"user\"}],\"model\":"@,
    ) + json_string(model);
    let tail = encode_utf8(",\"stream\":false}"@);
    assert(chat_request_body(model, prompt, None) =~= head + tail);
    assert((head + tail).take(head.len() as int) =~= head);
    lemma_decimal_digits(seed as nat);
    reveal_strlit(",\"seed\":");
    assert(is_ascii_chars(",\"seed\":"@));
    is_ascii_chars_encode_utf8(",\"seed\":"@);
}

} // verus!
