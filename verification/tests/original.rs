use qsol_harness_runtime::config::{
    InferenceRequest, ProviderCapabilities, ProviderConfig, ProviderTransport, RuntimeConfig,
    PROFILE_ID,
};
use qsol_harness_runtime::endpoint::validate_endpoint;
use qsol_harness_runtime::error::RuntimeError;
use qsol_harness_runtime::identity::{canonical_input_sha256, ProviderIdentity};
use qsol_harness_runtime::provider::{extract_openai_compatible_content, ProviderResponse};
use qsol_harness_runtime::runtime::{CompositionRoot, HeadlessResult};
use serde_json::Value;

fn capabilities(seed: bool) -> ProviderCapabilities {
    ProviderCapabilities {
        tools: false,
        streaming: false,
        seed,
        structured_output: false,
        images: false,
    }
}

fn fixture_config(seed: bool) -> RuntimeConfig {
    RuntimeConfig {
        profile: PROFILE_ID.into(),
        provider: ProviderConfig {
            provider_id: "fixture".into(),
            model_id: "deterministic-fixture-v1".into(),
            transport: ProviderTransport::Native,
            endpoint: None,
            auth_ref: None,
            capabilities: capabilities(seed),
            generation: None,
        },
    }
}

fn object(fields: Vec<(&str, Value)>) -> Value {
    let mut map = serde_json::Map::new();
    for (key, value) in fields {
        map.insert(key.to_string(), value);
    }
    Value::Object(map)
}

/// The JSON value of a result, field for field as its serialized form holds it.
fn result_json(result: &HeadlessResult) -> Value {
    let identity = &result.provider_identity;
    let receipt = &result.receipt;
    object(vec![
        ("schema", Value::from(result.schema)),
        ("profile", Value::from(result.profile)),
        (
            "provider_identity",
            object(vec![
                ("provider_id", Value::from(identity.provider_id.clone())),
                ("model_id", Value::from(identity.model_id.clone())),
                ("transport", Value::from(identity.transport.as_str())),
            ]),
        ),
        ("output", Value::from(result.output.clone())),
        (
            "receipt",
            object(vec![
                ("schema_version", Value::from(receipt.schema_version)),
                ("receipt_id", Value::from(receipt.receipt_id.clone())),
                ("experiment_id", Value::from(receipt.experiment_id.clone())),
                ("action", Value::from(receipt.action)),
                ("input_sha256", Value::from(receipt.input_sha256.clone())),
                ("output_sha256", Value::from(receipt.output_sha256.clone())),
                ("evidence_class", Value::from(receipt.evidence_class)),
                (
                    "actor",
                    object(vec![
                        ("kind", Value::from(receipt.actor.kind)),
                        ("id", Value::from(receipt.actor.id.clone())),
                    ]),
                ),
                ("status", Value::from(receipt.status)),
            ]),
        ),
    ])
}

#[test]
fn headless_fixture_runs_without_xai_identity_or_credentials() {
    let root = CompositionRoot::from_config(fixture_config(true)).unwrap();
    let result = root
        .run(InferenceRequest {
            experiment_id: "test-1".into(),
            prompt: "deterministic prompt".into(),
            seed: Some(7),
        })
        .unwrap();
    assert_eq!(result.profile, "NS-LLM");
    assert_eq!(result.provider_identity.provider_id, "fixture");
    assert_eq!(result.receipt.evidence_class, "MODEL_INFERENCE");
    assert_eq!(result.receipt.status, "ok");
    assert!(result.receipt.actor.id.starts_with("model-sha256:"));
    let serialized = serde_json::to_string(&result_json(&result)).unwrap();
    assert!(!serialized.to_ascii_lowercase().contains("xai_api_key"));
    assert!(!serialized.to_ascii_lowercase().contains("bearer "));
}

#[test]
fn same_request_produces_same_fixture_output_and_receipt() {
    let root = CompositionRoot::from_config(fixture_config(true)).unwrap();
    let request = InferenceRequest {
        experiment_id: "repeat".into(),
        prompt: "same".into(),
        seed: Some(11),
    };
    let first = root.run(request.clone()).unwrap();
    let second = root.run(request).unwrap();
    assert_eq!(first.output, second.output);
    assert_eq!(first.receipt, second.receipt);
}

#[test]
fn seed_capable_provider_fails_closed_without_seed() {
    let root = CompositionRoot::from_config(fixture_config(true)).unwrap();
    let error = root
        .run(InferenceRequest {
            experiment_id: "missing-seed".into(),
            prompt: "prompt".into(),
            seed: None,
        })
        .unwrap_err();
    assert!(matches!(error, RuntimeError::MissingSeed));
}

#[test]
fn provider_identity_changes_canonical_input_hash() {
    let request = InferenceRequest {
        experiment_id: "identity-bound".into(),
        prompt: "same request".into(),
        seed: Some(3),
    };
    let first = ProviderIdentity {
        provider_id: "provider-a".into(),
        model_id: "model".into(),
        transport: ProviderTransport::OpenaiCompatible,
    };
    let second = ProviderIdentity {
        provider_id: "provider-b".into(),
        model_id: "model".into(),
        transport: ProviderTransport::OpenaiCompatible,
    };
    assert_ne!(
        canonical_input_sha256(&first, &request).unwrap(),
        canonical_input_sha256(&second, &request).unwrap()
    );
}

#[test]
fn actor_identity_encoding_resists_delimiter_collisions() {
    let first = ProviderIdentity {
        provider_id: "a".into(),
        model_id: "b/c".into(),
        transport: ProviderTransport::Native,
    };
    let second = ProviderIdentity {
        provider_id: "a/b".into(),
        model_id: "c".into(),
        transport: ProviderTransport::Native,
    };
    assert_ne!(first.receipt_actor_id(), second.receipt_actor_id());
}

#[test]
fn raw_credentials_are_rejected_in_provider_config() {
    let mut config = fixture_config(false);
    config.provider.auth_ref = Some("secret-token".into());
    assert!(CompositionRoot::from_config(config).is_err());
}

#[test]
fn wrong_profile_is_rejected() {
    let mut config = fixture_config(false);
    config.profile = "ns-llm".into();
    assert!(CompositionRoot::from_config(config).is_err());
}

#[test]
fn response_model_mismatch_fails_closed() {
    let response = ProviderResponse {
        model: Some("fallback-model".into()),
        content: Some("answer".into()),
    };
    assert!(extract_openai_compatible_content(&response, "requested-model").is_err());
}

#[test]
fn authenticated_plaintext_remote_endpoint_is_rejected() {
    assert!(validate_endpoint("http://example.com/v1/chat/completions", true).is_err());
    assert!(validate_endpoint("http://127.0.0.1:11434/v1/chat/completions", true).is_ok());
    assert!(validate_endpoint("https://example.com/v1/chat/completions", true).is_ok());
}

#[test]
fn xai_is_not_required_or_enabled_by_default() {
    let config = RuntimeConfig {
        profile: PROFILE_ID.into(),
        provider: ProviderConfig {
            provider_id: "xai".into(),
            model_id: "grok".into(),
            transport: ProviderTransport::OpenaiCompatible,
            endpoint: None,
            auth_ref: Some("env:XAI_API_KEY".into()),
            capabilities: capabilities(false),
            generation: None,
        },
    };
    assert!(matches!(
        CompositionRoot::from_config(config),
        Err(RuntimeError::UnsupportedProvider(_))
    ));
}
