use qsol_harness_runtime::cli::{
    parse_command_line, parse_seed, parse_u64, trim_prompt_line_ending, value_after,
};
use qsol_harness_runtime::config::{
    GenerationConfig, InferenceRequest, ProviderCapabilities, ProviderConfig, ProviderTransport,
    RuntimeConfig, PROFILE_ID,
};
use qsol_harness_runtime::digest::sha256_hex;
use qsol_harness_runtime::encoding::{append_length_prefixed, u64_decimal, u64_to_be_bytes};
use qsol_harness_runtime::endpoint::{endpoint_is_loopback, validate_endpoint, EndpointParts};
use qsol_harness_runtime::error::RuntimeError;
use qsol_harness_runtime::identity::{canonical_request_bytes, canonical_input_sha256, ProviderIdentity};
use qsol_harness_runtime::provider::{
    extract_openai_compatible_content, read_reply, OpenAiCompatibleProvider, ProviderResponse,
};
use qsol_harness_runtime::runtime::{
    build_provider, CompositionRoot, InferenceCall, ProviderAdapter, FIXTURE_UNAVAILABLE,
};
use qsol_harness_runtime::text::{str_eq_ignore_ascii_case, str_is_blank, str_strip_prefix, to_hex_lower};
use serde_json::Value;

fn provider(provider_id: &str, transport: ProviderTransport) -> ProviderConfig {
    ProviderConfig {
        provider_id: provider_id.into(),
        model_id: "model-1".into(),
        transport,
        endpoint: None,
        auth_ref: None,
        capabilities: ProviderCapabilities::default(),
        generation: None,
    }
}

fn runtime(provider: ProviderConfig) -> RuntimeConfig {
    RuntimeConfig { profile: PROFILE_ID.into(), provider }
}

fn config_message(result: Result<(), RuntimeError>) -> String {
    match result {
        Err(RuntimeError::Config(message)) => message,
        other => panic!("expected a configuration error, got {:?}", other),
    }
}

fn args(items: &[&str]) -> Vec<String> {
    items.iter().map(|s| s.to_string()).collect()
}

#[test]
fn sha256_hex_of_abc() {
    assert_eq!(
        sha256_hex(b"abc"),
        "ba7816bf8f01cfea414140de5dae2223b00361a396177a9cb410ff61f20015ad"
    );
    assert_eq!(sha256_hex(b"").len(), 64);
}

#[test]
fn hex_rendering_is_lower_case_two_digits_per_byte() {
    assert_eq!(to_hex_lower(&[0x00, 0x0f, 0xa0, 0xff]), "000fa0ff");
    assert_eq!(to_hex_lower(&[]), "");
}

#[test]
fn length_prefix_is_eight_big_endian_bytes() {
    assert_eq!(u64_to_be_bytes(0x0102_0304_0506_0708), vec![1, 2, 3, 4, 5, 6, 7, 8]);
    let mut target = vec![9u8];
    append_length_prefixed(&mut target, b"ab");
    assert_eq!(target, vec![9, 0, 0, 0, 0, 0, 0, 0, 2, b'a', b'b']);
}

#[test]
fn decimal_rendering() {
    assert_eq!(u64_decimal(0), b"0".to_vec());
    assert_eq!(u64_decimal(907), b"907".to_vec());
    assert_eq!(u64_decimal(u64::MAX), u64::MAX.to_string().into_bytes());
}

#[test]
fn binding_bytes_frame_each_field() {
    let identity = ProviderIdentity {
        provider_id: "a".into(),
        model_id: "é".into(),
        transport: ProviderTransport::Native,
    };
    let mut expected = vec![0, 0, 0, 0, 0, 0, 0, 1, b'a'];
    expected.extend_from_slice(&[0, 0, 0, 0, 0, 0, 0, 2, 0xc3, 0xa9]);
    expected.extend_from_slice(&[0, 0, 0, 0, 0, 0, 0, 6]);
    expected.extend_from_slice(b"native");
    assert_eq!(identity.binding_bytes(), expected);
    assert_eq!(
        identity.receipt_actor_id(),
        format!("model-sha256:{}", sha256_hex(&expected))
    );
}

#[test]
fn identity_from_config() {
    let config = provider("fixture", ProviderTransport::Native);
    let identity = ProviderIdentity::from(&config);
    assert_eq!(identity.provider_id, "fixture");
    assert_eq!(identity.model_id, "model-1");
    assert_eq!(identity.transport, ProviderTransport::Native);
    assert_eq!(ProviderTransport::OpenaiCompatible.to_string(), "openai-compatible");
    assert_eq!(ProviderTransport::LocalProcess.as_str(), "local-process");
}

#[test]
fn canonical_request_document_is_compact_json_in_field_order() {
    let identity = ProviderIdentity {
        provider_id: "p".into(),
        model_id: "m".into(),
        transport: ProviderTransport::Vllm,
    };
    let request = InferenceRequest {
        experiment_id: "e".into(),
        prompt: "say \"hi\"\n\\\u{1}é".into(),
        seed: None,
    };
    let bytes = canonical_request_bytes(&identity, &request);
    let expected = "{\"schema\":\"qsol-harness/canonical-inference-request/1\",\"profile\":\"NS-LLM\",\"provider_identity\":{\"provider_id\":\"p\",\"model_id\":\"m\",\"transport\":\"vllm\"},\"request\":{\"experiment_id\":\"e\",\"prompt\":\"say \\\"hi\\\"\\n\\\\\\u0001é\",\"seed\":null}}";
    assert_eq!(String::from_utf8(bytes.clone()).unwrap(), expected);
    assert_eq!(canonical_input_sha256(&identity, &request).unwrap(), sha256_hex(&bytes));
    let seeded = InferenceRequest { seed: Some(42), ..request };
    let bytes = canonical_request_bytes(&identity, &seeded);
    assert!(String::from_utf8(bytes).unwrap().ends_with(",\"seed\":42}}"));
}

#[test]
fn text_predicates() {
    assert!(str_is_blank(" \t\u{3000}\n"));
    assert!(str_is_blank(""));
    assert!(!str_is_blank(" x "));
    assert!(str_eq_ignore_ascii_case("XaI", "xai"));
    assert!(!str_eq_ignore_ascii_case("xai", "xa"));
    assert!(!str_eq_ignore_ascii_case("É", "é"));
    assert_eq!(str_strip_prefix("env:KEY", "env:"), Some("KEY"));
    assert_eq!(str_strip_prefix("en", "env:"), None);
}

#[test]
fn provider_config_errors_in_order() {
    let mut config = provider(" ", ProviderTransport::Native);
    assert_eq!(config_message(config.validate()), "provider_id must not be empty");
    config.provider_id = "fixture".into();
    config.model_id = "\t".into();
    assert_eq!(config_message(config.validate()), "model_id must not be empty");
    config.model_id = "m".into();
    config.auth_ref = Some("sk-secret".into());
    assert_eq!(
        config_message(config.validate()),
        "auth_ref must use env:NAME; raw credentials are forbidden"
    );
    config.auth_ref = Some("env: ".into());
    assert_eq!(
        config_message(config.validate()),
        "auth_ref environment variable name must not be empty"
    );
    config.auth_ref = Some("env:TOKEN".into());
    assert_eq!(config.auth_env_name(), Some("TOKEN"));
    config.generation = Some(GenerationConfig { seed: None, max_tokens: Some(0) });
    assert_eq!(
        config_message(config.validate()),
        "generation.max_tokens must be greater than zero"
    );
    config.generation = Some(GenerationConfig { seed: Some(1), max_tokens: Some(10) });
    assert!(config.validate().is_ok());
}

#[test]
fn wrong_profile_message_names_both_profiles() {
    let mut config = runtime(provider("fixture", ProviderTransport::Native));
    config.profile = "other".into();
    assert_eq!(config_message(config.validate()), "profile must be NS-LLM, got other");
}

#[test]
fn request_errors() {
    let request = InferenceRequest { experiment_id: " ".into(), prompt: "p".into(), seed: None };
    assert_eq!(config_message(request.validate()), "experiment_id must not be empty");
    let request = InferenceRequest { experiment_id: "e".into(), prompt: "".into(), seed: None };
    assert_eq!(config_message(request.validate()), "prompt must not be empty");
    let request = InferenceRequest { experiment_id: "e".into(), prompt: " ".into(), seed: None };
    assert!(request.validate().is_ok());
}

#[test]
fn fixture_answers_with_model_and_input_digest() {
    let root = CompositionRoot::from_config(runtime(provider("FIXTURE", ProviderTransport::Native)))
        .unwrap();
    let request = InferenceRequest { experiment_id: "x".into(), prompt: "p".into(), seed: None };
    let result = root.run(request.clone()).unwrap();
    let identity = ProviderIdentity::from(&provider("FIXTURE", ProviderTransport::Native));
    let input = canonical_input_sha256(&identity, &request).unwrap();
    assert_eq!(result.output, format!("fixture:model-1:{}", input));
    assert_eq!(result.receipt.input_sha256, input);
    assert_eq!(result.receipt.output_sha256, sha256_hex(result.output.as_bytes()));
    assert_eq!(result.receipt.experiment_id, "x");
    assert_eq!(result.receipt.action, "model_inference");
    assert_eq!(result.receipt.schema_version, "qsol-harness-receipt/1");
    assert_eq!(result.schema, "qsol-harness/headless-result/1");
    assert_eq!(result.receipt.actor.kind, "model");
    assert_eq!(result.receipt.actor.id, identity.receipt_actor_id());
    let material = format!(
        "{{\"schema\":\"qsol-harness/receipt-material/1\",\"experiment_id\":\"x\",\"provider_identity\":{{\"provider_id\":\"FIXTURE\",\"model_id\":\"model-1\",\"transport\":\"native\"}},\"actor_id\":\"{}\",\"input_sha256\":\"{}\",\"output_sha256\":\"{}\"}}",
        result.receipt.actor.id, input, result.receipt.output_sha256
    );
    assert_eq!(result.receipt.receipt_id, sha256_hex(material.as_bytes()));
}

#[test]
fn unsupported_transports_are_refused() {
    let error = CompositionRoot::from_config(runtime(provider("tool", ProviderTransport::LocalProcess)))
        .err()
        .unwrap();
    match error {
        RuntimeError::UnsupportedProvider(message) => assert_eq!(message, "tool via local-process"),
        other => panic!("unexpected {:?}", other),
    }
    let error = build_provider(provider("other", ProviderTransport::Native), true).err().unwrap();
    assert!(matches!(error, RuntimeError::UnsupportedProvider(ref m) if m == "other via native"));
}

#[test]
fn openai_adapter_endpoints() {
    let ollama = OpenAiCompatibleProvider::new(provider("local", ProviderTransport::Ollama)).unwrap();
    assert_eq!(ollama.endpoint(), "http://127.0.0.1:11434/v1/chat/completions");
    let missing = OpenAiCompatibleProvider::new(provider("remote", ProviderTransport::Vllm)).err().unwrap();
    assert!(matches!(missing, RuntimeError::Config(ref m) if m == "endpoint is required for provider remote over vllm"));
    let mut with_key = provider("remote", ProviderTransport::OpenaiCompatible);
    with_key.endpoint = Some("http://api.example.com/v1".into());
    with_key.auth_ref = Some("env:KEY".into());
    let refused = OpenAiCompatibleProvider::new(with_key.clone()).err().unwrap();
    assert!(matches!(refused, RuntimeError::Config(ref m) if m.starts_with("bearer credentials require HTTPS")));
    with_key.endpoint = Some("https://api.example.com/v1".into());
    assert!(OpenAiCompatibleProvider::new(with_key).is_ok());
}

#[test]
fn endpoint_checks() {
    let invalid = validate_endpoint("not a url", false).err().unwrap();
    assert!(matches!(invalid, RuntimeError::Config(ref m) if m.starts_with("invalid provider endpoint: ")));
    let embedded = validate_endpoint("https://user:pw@example.com/", false).err().unwrap();
    assert!(matches!(embedded, RuntimeError::Config(ref m) if m == "provider endpoint must not embed credentials"));
    assert!(validate_endpoint("http://LocalHost:8080/v1", true).is_ok());
    assert!(validate_endpoint("http://127.1.2.3/v1", true).is_ok());
    assert!(validate_endpoint("http://[::1]:8080/v1", true).is_err());
    assert!(validate_endpoint("http://127.example.com/v1", true).is_err());
    assert!(validate_endpoint("HTTPS://example.com/v1", true).is_ok());
    assert!(validate_endpoint("http://example.com/v1", false).is_ok());
}

#[test]
fn reply_extraction() {
    let ok = ProviderResponse { model: Some("m".into()), content: Some("answer".into()) };
    assert_eq!(extract_openai_compatible_content(&ok, "m").unwrap(), "answer");
    let no_model = ProviderResponse { model: None, content: Some("answer".into()) };
    assert!(matches!(extract_openai_compatible_content(&no_model, "m"), Err(RuntimeError::Provider(ref e)) if e == "response omitted top-level model identity"));
    let mismatch = ProviderResponse { model: Some("x".into()), content: Some("a".into()) };
    assert!(matches!(extract_openai_compatible_content(&mismatch, "m"), Err(RuntimeError::Provider(ref e)) if e == "response model mismatch: requested m, resolved x"));
    let no_content = ProviderResponse { model: Some("m".into()), content: None };
    assert!(matches!(extract_openai_compatible_content(&no_content, "m"), Err(RuntimeError::Provider(ref e)) if e == "response omitted choices[0].message.content"));
}

fn chat_body_value(model: &str, prompt: &str, seed: Option<u64>) -> Value {
    let mut message = serde_json::Map::new();
    message.insert("role".into(), Value::from("user"));
    message.insert("content".into(), Value::from(prompt));
    let mut body = serde_json::Map::new();
    body.insert("model".into(), Value::from(model));
    body.insert("messages".into(), Value::Array(vec![Value::Object(message)]));
    body.insert("stream".into(), Value::from(false));
    if let Some(seed) = seed {
        body.insert("seed".into(), Value::from(seed));
    }
    Value::Object(body)
}

#[test]
fn remote_inference_is_prepared_and_finished() {
    let mut config = provider("remote", ProviderTransport::OpenaiCompatible);
    config.endpoint = Some("https://api.example.com/v1/chat/completions".into());
    config.auth_ref = Some("env:API_TOKEN".into());
    let root = CompositionRoot::from_config(runtime(config.clone())).unwrap();
    assert!(matches!(root.adapter(), ProviderAdapter::OpenAiCompatible(_)));
    let request = InferenceRequest { experiment_id: "r".into(), prompt: "q \"1\"".into(), seed: Some(5) };
    let (prepared, call) = root.prepare(request.clone()).unwrap();
    let call = match call {
        InferenceCall::Remote(call) => call,
        InferenceCall::Answered(_) => panic!("expected a remote call"),
    };
    assert_eq!(call.endpoint, "https://api.example.com/v1/chat/completions");
    assert_eq!(call.bearer_env.as_deref(), Some("API_TOKEN"));
    assert_eq!(call.body, serde_json::to_vec(&chat_body_value("model-1", "q \"1\"", Some(5))).unwrap());
    let reply = ProviderResponse { model: Some("model-1".into()), content: Some("42".into()) };
    let result = prepared.finish(&reply).unwrap();
    assert_eq!(result.output, "42");
    assert_eq!(result.receipt.input_sha256, canonical_input_sha256(&ProviderIdentity::from(&config), &request).unwrap());
    let unseeded = InferenceRequest { seed: None, ..request.clone() };
    match root.prepare(unseeded).unwrap().1 {
        InferenceCall::Remote(call) => assert_eq!(
            call.body,
            serde_json::to_vec(&chat_body_value("model-1", "q \"1\"", None)).unwrap()
        ),
        InferenceCall::Answered(_) => panic!("expected a remote call"),
    }
    assert!(matches!(root.run(request), Err(RuntimeError::UnsupportedProvider(ref m)) if m == "remote via openai-compatible is answered over the network: call prepare, send the chat request, then finish"));
}

#[test]
fn command_line_values() {
    let line = args(&["bin", "--config", "c.json", "--prompt", "-", "--seed", "+17"]);
    assert_eq!(value_after(&line, "--config"), Some("c.json".to_string()));
    assert_eq!(value_after(&line, "--missing"), None);
    assert_eq!(value_after(&args(&["--seed"]), "--seed"), None);
    assert_eq!(parse_seed(&line).unwrap(), Some(17));
    assert_eq!(parse_seed(&args(&["x"])).unwrap(), None);
    assert!(matches!(parse_seed(&args(&["--seed", "-1"])), Err(RuntimeError::Config(ref m)) if m == "--seed must be an unsigned integer"));
    let parsed = parse_command_line(&line).unwrap();
    assert_eq!(parsed.config_path, "c.json");
    assert_eq!(parsed.prompt, "-");
    assert_eq!(parsed.experiment_id, "qsol-headless");
    assert_eq!(parsed.seed, Some(17));
    assert!(matches!(parse_command_line(&args(&["--prompt", "p"])), Err(RuntimeError::Config(ref m)) if m.starts_with("usage: ")));
    assert!(matches!(parse_command_line(&args(&["--config", "c"])), Err(RuntimeError::Config(ref m)) if m == "--prompt is required"));
}

#[test]
fn unsigned_parsing_matches_std() {
    for text in ["0", "007", "+5", "18446744073709551615", "18446744073709551616", "", "+", "-0", " 1", "1a", "99999999999999999999"] {
        assert_eq!(parse_u64(text), text.parse::<u64>().ok(), "{:?}", text);
    }
}

#[test]
fn prompt_line_endings() {
    assert_eq!(trim_prompt_line_ending("a\r\n".to_string()), "a");
    assert_eq!(trim_prompt_line_ending("a\n\n".to_string()), "a\n");
    assert_eq!(trim_prompt_line_ending("a\r".to_string()), "a\r");
    assert_eq!(trim_prompt_line_ending("".to_string()), "");
}

#[test]
fn missing_seed_is_refused_before_anything_else_is_computed() {
    let mut config = provider("fixture", ProviderTransport::Native);
    config.capabilities.seed = true;
    let root = CompositionRoot::from_config(runtime(config)).unwrap();
    let bad = InferenceRequest { experiment_id: "".into(), prompt: "p".into(), seed: None };
    assert!(matches!(root.run(bad), Err(RuntimeError::Config(_))));
}

#[test]
fn receipts_for_different_answers_differ() {
    let mut config = provider("remote", ProviderTransport::OpenaiCompatible);
    config.endpoint = Some("https://api.example.com/v1/chat/completions".into());
    let root = CompositionRoot::from_config(runtime(config)).unwrap();
    let request = InferenceRequest { experiment_id: "bind".into(), prompt: "p".into(), seed: None };
    let (first, _) = root.prepare(request.clone()).unwrap();
    let (second, _) = root.prepare(request).unwrap();
    let a = first.complete("yes".into());
    let b = second.complete("no".into());
    assert_eq!(a.receipt.input_sha256, b.receipt.input_sha256);
    assert_eq!(a.receipt.actor, b.receipt.actor);
    assert_ne!(a.receipt.output_sha256, b.receipt.output_sha256);
    assert_ne!(a.receipt.receipt_id, b.receipt.receipt_id);
    assert_eq!(a.receipt.output_sha256, sha256_hex(b"yes"));
}

fn host_parts(host: Option<&str>) -> EndpointParts {
    EndpointParts {
        scheme: "http".into(),
        username: String::new(),
        password: None,
        host: host.map(str::to_string),
    }
}

#[test]
fn loopback_hosts() {
    for host in ["localhost", "LocalHost", "127.0.0.1", "127.255.255.255", "127.0.0.0"] {
        assert!(endpoint_is_loopback(&host_parts(Some(host))), "{}", host);
    }
    for host in [
        "127.00.0.1", "127.0.0.256", "127.0.0", "127.0.0.1.", "128.0.0.1", "0127.0.0.1",
        "127.0.0.1.1", "[::1]", "localhost.", "127.example.com", "", "127..0.1",
    ] {
        assert!(!endpoint_is_loopback(&host_parts(Some(host))), "{}", host);
    }
    assert!(!endpoint_is_loopback(&host_parts(None)));
    assert!(validate_endpoint("http://127.0.0.1./v1", true).is_ok());
}

#[test]
fn fixture_needs_a_build_that_carries_it() {
    let fixture = runtime(provider("Fixture", ProviderTransport::Native));
    assert!(CompositionRoot::from_config_with(fixture.clone(), true).is_ok());
    match CompositionRoot::from_config_with(fixture, false) {
        Err(RuntimeError::UnsupportedProvider(m)) => assert_eq!(m, FIXTURE_UNAVAILABLE),
        _ => panic!("expected the fixture to be refused"),
    }
    let error = build_provider(provider("fixture", ProviderTransport::Native), false).err().unwrap();
    assert!(matches!(error, RuntimeError::UnsupportedProvider(ref m) if m.starts_with("deterministic fixture is test/CI-only")));
    let mut remote = provider("remote", ProviderTransport::OpenaiCompatible);
    remote.endpoint = Some("https://api.example.com/v1".into());
    assert!(CompositionRoot::from_config_with(runtime(remote), false).is_ok());
}

#[test]
fn digests_render_as_sixty_four_hex_digits() {
    let root = CompositionRoot::from_config(runtime(provider("fixture", ProviderTransport::Native))).unwrap();
    let request = InferenceRequest { experiment_id: "hex".into(), prompt: "p".into(), seed: None };
    let result = root.run(request.clone()).unwrap();
    let hex = |s: &str| s.len() == 64 && s.chars().all(|c| c.is_ascii_digit() || ('a'..='f').contains(&c));
    assert!(hex(&result.receipt.receipt_id));
    assert!(hex(&result.receipt.input_sha256));
    assert!(hex(&result.receipt.output_sha256));
    assert_eq!(result.receipt.actor.id.len(), 77);
    assert!(hex(&result.receipt.actor.id[13..]));
    let (prepared, _) = root.prepare(request).unwrap();
    assert_eq!(prepared.input_sha256(), result.receipt.input_sha256);
    assert_eq!(prepared.request().experiment_id, "hex");
    assert_eq!(prepared.identity().provider_id, "fixture");
}

#[test]
fn reply_bodies_are_read_for_model_and_content() {
    let full = br#"{"model":"m","choices":[{"message":{"role":"assistant","content":"hi"}}],"usage":{}}"#;
    let reply = read_reply(full).unwrap();
    assert_eq!(reply, ProviderResponse { model: Some("m".into()), content: Some("hi".into()) });
    let partial = br#"{"model":7,"choices":[]}"#;
    assert_eq!(read_reply(partial).unwrap(), ProviderResponse { model: None, content: None });
    assert!(matches!(read_reply(b"not json"), Err(RuntimeError::Json(_))));
}

#[test]
fn remote_reply_bodies_finish_the_inference() {
    let mut config = provider("remote", ProviderTransport::OpenaiCompatible);
    config.endpoint = Some("https://api.example.com/v1".into());
    let root = CompositionRoot::from_config(runtime(config)).unwrap();
    let request = InferenceRequest { experiment_id: "b".into(), prompt: "p".into(), seed: None };
    let (prepared, _) = root.prepare(request.clone()).unwrap();
    let body = br#"{"model":"model-1","choices":[{"message":{"content":"answer"}}]}"#;
    let result = prepared.finish_reply(body).unwrap();
    assert_eq!(result.output, "answer");
    assert_eq!(result.receipt.output_sha256, sha256_hex(b"answer"));
    let (prepared, _) = root.prepare(request.clone()).unwrap();
    let other = br#"{"model":"fallback","choices":[{"message":{"content":"answer"}}]}"#;
    assert!(matches!(prepared.finish_reply(other), Err(RuntimeError::Provider(ref m)) if m == "response model mismatch: requested model-1, resolved fallback"));
    let (prepared, _) = root.prepare(request).unwrap();
    assert!(matches!(prepared.finish_reply(b"{"), Err(RuntimeError::Json(_))));
}
