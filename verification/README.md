# qsol-harness-runtime

The runtime of a headless inference harness: it admits a provider
configuration for the `NS-LLM` profile, checks each inference request, binds
the request to the provider identity in a canonical JSON document, answers it
through a provider adapter, and issues an evidence receipt whose digests tie
the input, the output and the acting model together.

## Layout

- `src/` is the library, written in Verus and verified:
  - `config.rs`: configurations, requests, and the checks that admit them.
  - `identity.rs`: provider identities, their length-prefixed binding, the
    canonical request document and its digest.
  - `provider.rs`: the deterministic fixture, the OpenAI-compatible adapter
    (endpoint choice, request body, reply checks).
  - `endpoint.rs`: endpoint URLs and the rule that credentials travel only over
    HTTPS or to a loopback host.
  - `runtime.rs`: adapter selection, the composition root, receipts.
  - `cli.rs`: the command line's flags, seed parsing, prompt line endings.
  - `json.rs`, `encoding.rs`, `text.rs`, `digest.rs`: JSON text, byte
    encodings, string predicates, SHA-256 digests.
  - `laws.rs`: properties that span several operations.
- `tests/` runs the library with the real outside crates linked.
  `CompositionRoot::from_config` builds the runtime as tests and CI do, with the
  deterministic fixture; `from_config_with(config, false)` is the ordinary
  build, which refuses the fixture, and is what the command uses.
- `app/` is the command: file and standard-input reading, the HTTP call
  (`reqwest`), configuration parsing and result printing of the serde copies of the library's
  types, and the error type with its display text.

The library's only unproved code is a few trusted items, each documented where
it stands: `serde_json::to_vec` on a string, `serde_json::from_slice` on a
chat-completion reply, `sha2`'s SHA-256, `reqwest::Url::parse`, and std's
`String::push`.
