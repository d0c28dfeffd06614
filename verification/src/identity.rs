//! Provider identities: their byte binding, the receipt actor id derived from it,
//! and the canonical JSON document that binds an identity to a request.
use vstd::prelude::*;
use vstd::utf8::{encode_utf8, encode_utf8_decode_utf8, is_ascii_chars, is_ascii_chars_encode_utf8};
use crate::config::{transport_name, InferenceRequest, ProviderConfig, ProviderTransport, PROFILE_ID};
use crate::digest::{is_hex_digest, sha256, sha256_hex};
use crate::encoding::{
    append_bytes, append_length_prefixed, decimal, lemma_decimal_digits, lemma_decimal_injective,
    lemma_cancel_prefix, lemma_cancel_suffix, lemma_length_prefixed_unambiguous, length_prefixed,
    u64_decimal,
};
use crate::error::RuntimeError;
use crate::json::{json_string, lemma_json_string_unambiguous, push_json_string};
use crate::text::hex_lower;

verus! {

/// The schema of the canonical inference request document.
pub const CANONICAL_REQUEST_SCHEMA: &'static str = "qsol-harness/canonical-inference-request/1";

/// Which provider and model answer, and how they are reached.
#[derive(Clone, Debug, PartialEq, Eq)]
pub struct ProviderIdentity {
    pub provider_id: String,
    pub model_id: String,
    pub transport: ProviderTransport,
}

/// The identity's binding: provider id, model id and transport name, each as
/// UTF-8 framed by its length.
pub open spec fn binding(id: ProviderIdentity) -> Seq<u8> {
    length_prefixed(encode_utf8(id.provider_id@)) + length_prefixed(encode_utf8(id.model_id@))
        + length_prefixed(encode_utf8(transport_name(id.transport)))
}

/// The actor id under which receipts name a model: `model-sha256:` and the hex
/// digest of the identity's binding.
pub open spec fn actor_id(id: ProviderIdentity) -> Seq<char> {
    "model-sha256:"@ + hex_lower(sha256(binding(id)))
}

/// The identity a provider configuration declares.
pub open spec fn identity_of(config: ProviderConfig) -> ProviderIdentity {
    ProviderIdentity {
        provider_id: config.provider_id,
        model_id: config.model_id,
        transport: config.transport,
    }
}

/// The JSON object for an identity, fields in declaration order.
pub open spec fn identity_json(id: ProviderIdentity) -> Seq<u8> {
    encode_utf8("{\"provider_id\":"@) + json_string(id.provider_id@) + encode_utf8(
        ",\"model_id\":"@,
    ) + json_string(id.model_id@) + encode_utf8(",\"transport\":"@) + json_string(
        transport_name(id.transport),
    ) + encode_utf8("}"@)
}

/// A JSON number, or `null` when absent.
pub open spec fn optional_u64_json(v: Option<u64>) -> Seq<u8> {
    match v {
        Some(n) => decimal(n as nat),
        None => encode_utf8("null"@),
    }
}

/// The JSON object for a request, fields in declaration order.
pub open spec fn request_json(r: InferenceRequest) -> Seq<u8> {
    encode_utf8("{\"experiment_id\":"@) + json_string(r.experiment_id@) + encode_utf8(
        ",\"prompt\":"@,
    ) + json_string(r.prompt@) + encode_utf8(",\"seed\":"@) + optional_u64_json(r.seed)
        + encode_utf8("}"@)
}

/// The canonical inference request document: schema, profile, identity and request.
pub open spec fn canonical_request_document(id: ProviderIdentity, r: InferenceRequest) -> Seq<
    u8,
> {
    encode_utf8("{\"schema\":"@) + json_string(CANONICAL_REQUEST_SCHEMA@) + encode_utf8(
        ",\"profile\":"@,
    ) + json_string(PROFILE_ID@) + encode_utf8(",\"provider_identity\":"@) + identity_json(id)
        + encode_utf8(",\"request\":"@) + request_json(r) + encode_utf8("}"@)
}

/// The hash that binds a request to the identity that answers it.
pub open spec fn canonical_input_hash(id: ProviderIdentity, r: InferenceRequest) -> Seq<char> {
    hex_lower(sha256(canonical_request_document(id, r)))
}

impl ProviderIdentity {
    /// The identity's binding bytes.
    pub fn binding_bytes(&self) -> (r: Vec<u8>)
        ensures
            r@ == binding(*self),
    {
        let mut bytes: Vec<u8> = Vec::new();
        append_length_prefixed(&mut bytes, self.provider_id.as_str().as_bytes());
        append_length_prefixed(&mut bytes, self.model_id.as_str().as_bytes());
        let transport = self.transport.to_string();
        append_length_prefixed(&mut bytes, transport.as_str().as_bytes());
        assert(bytes@ =~= binding(*self));
        bytes
    }

    /// The actor id receipts record for this identity.
    pub fn receipt_actor_id(&self) -> (r: String)
        ensures
            r@ == actor_id(*self),
            r@.len() == 77,
            r@.take(13) == "model-sha256:"@,
            is_hex_digest(r@.skip(13)),
    {
        let digest = sha256_hex(self.binding_bytes().as_slice());
        let mut id = "model-sha256:".to_owned();
        id.append(digest.as_str());
        proof {
            reveal_strlit("model-sha256:");
            assert(id@.take(13) =~= "model-sha256:"@);
            assert(id@.skip(13) =~= digest@);
        }
        id
    }

    /// The identity a provider configuration declares.
    pub fn from_config(config: &ProviderConfig) -> (r: ProviderIdentity)
        ensures
            r == identity_of(*config),
    {
        ProviderIdentity {
            provider_id: config.provider_id.clone(),
            model_id: config.model_id.clone(),
            transport: config.transport,
        }
    }

    /// Appends the identity's JSON object.
    pub fn write_json(&self, out: &mut Vec<u8>)
        ensures
            final(out)@ == old(out)@ + identity_json(*self),
    {
        append_bytes(out, "{\"provider_id\":".as_bytes());
        push_json_string(out, self.provider_id.as_str());
        append_bytes(out, ",\"model_id\":".as_bytes());
        push_json_string(out, self.model_id.as_str());
        append_bytes(out, ",\"transport\":".as_bytes());
        push_json_string(out, self.transport.as_str());
        append_bytes(out, "}".as_bytes());
        assert(out@ =~= old(out)@ + identity_json(*self));
    }
}

impl<'a> From<&'a ProviderConfig> for ProviderIdentity {
    fn from(config: &'a ProviderConfig) -> (r: ProviderIdentity) {
        ProviderIdentity::from_config(config)
    }
}

impl<'a> vstd::std_specs::convert::FromSpecImpl<&'a ProviderConfig> for ProviderIdentity {
    open spec fn obeys_from_spec() -> bool {
        true
    }

    open spec fn from_spec(config: &'a ProviderConfig) -> ProviderIdentity {
        identity_of(*config)
    }
}

impl InferenceRequest {
    /// Appends the request's JSON object.
    pub fn write_json(&self, out: &mut Vec<u8>)
        ensures
            final(out)@ == old(out)@ + request_json(*self),
    {
        append_bytes(out, "{\"experiment_id\":".as_bytes());
        push_json_string(out, self.experiment_id.as_str());
        append_bytes(out, ",\"prompt\":".as_bytes());
        push_json_string(out, self.prompt.as_str());
        append_bytes(out, ",\"seed\":".as_bytes());
        match self.seed {
            Some(n) => {
                let digits = u64_decimal(n);
                append_bytes(out, digits.as_slice());
            },
            None => append_bytes(out, "null".as_bytes()),
        }
        append_bytes(out, "}".as_bytes());
        assert(out@ =~= old(out)@ + request_json(*self));
    }
}

/// The canonical request document's bytes.
pub fn canonical_request_bytes(identity: &ProviderIdentity, request: &InferenceRequest) -> (r:
    Vec<u8>)
    ensures
        r@ == canonical_request_document(*identity, *request),
{
    let mut out: Vec<u8> = Vec::new();
    append_bytes(&mut out, "{\"schema\":".as_bytes());
    push_json_string(&mut out, CANONICAL_REQUEST_SCHEMA);
    append_bytes(&mut out, ",\"profile\":".as_bytes());
    push_json_string(&mut out, PROFILE_ID);
    append_bytes(&mut out, ",\"provider_identity\":".as_bytes());
    identity.write_json(&mut out);
    append_bytes(&mut out, ",\"request\":".as_bytes());
    request.write_json(&mut out);
    append_bytes(&mut out, "}".as_bytes());
    assert(out@ =~= canonical_request_document(*identity, *request));
    out
}

/// The SHA-256 hex digest of the canonical request document. Writing the
/// document cannot fail, so the result is always `Ok`.
pub fn canonical_input_sha256(identity: &ProviderIdentity, request: &InferenceRequest) -> (r:
    Result<String, RuntimeError>)
    ensures
        r matches Ok(h) && h@ == canonical_input_hash(*identity, *request) && is_hex_digest(h@),
{
    let bytes = canonical_request_bytes(identity, request);
    Ok(sha256_hex(bytes.as_slice()))
}


/// Each transport has its own name.
#[verifier::spinoff_prover]
pub proof fn lemma_transport_name_injective(s: ProviderTransport, t: ProviderTransport)
    requires
        transport_name(s) == transport_name(t),
    ensures
        s == t,
{
    reveal_strlit("local-process");
    reveal_strlit("ollama");
    reveal_strlit("vllm");
    reveal_strlit("openai-compatible");
    reveal_strlit("native");
    assert("local-process"@.len() == 13);
    assert("ollama"@.len() == 6 && "ollama"@[0] == 'o');
    assert("vllm"@.len() == 4);
    assert("openai-compatible"@.len() == 17);
    assert("native"@.len() == 6 && "native"@[0] == 'n');
    let n = transport_name(s);
    let m = transport_name(t);
    if s != t {
        assert(n.len() != m.len() || n[0] != m[0]);
    }
}

/// A transport's name is a handful of ASCII bytes.
pub proof fn lemma_transport_bytes_short(t: ProviderTransport)
    ensures
        encode_utf8(transport_name(t)).len() <= 17,
{
    reveal_strlit("local-process");
    reveal_strlit("ollama");
    reveal_strlit("vllm");
    reveal_strlit("openai-compatible");
    reveal_strlit("native");
    assert(is_ascii_chars(transport_name(t)));
    is_ascii_chars_encode_utf8(transport_name(t));
}

/// The byte binding of an identity determines the identity: two identities whose
/// bindings agree have the same provider id, model id and transport, so no shift
/// of text between the fields (such as `a` + `b/c` against `a/b` + `c`) can
/// produce the same binding.
pub proof fn lemma_binding_injective(a: ProviderIdentity, b: ProviderIdentity)
    requires
        encode_utf8(a.provider_id@).len() <= u64::MAX,
        encode_utf8(a.model_id@).len() <= u64::MAX,
        encode_utf8(b.provider_id@).len() <= u64::MAX,
        encode_utf8(b.model_id@).len() <= u64::MAX,
        binding(a) == binding(b),
    ensures
        a.provider_id@ == b.provider_id@,
        a.model_id@ == b.model_id@,
        a.transport == b.transport,
{
    let pa = encode_utf8(a.provider_id@);
    let ma = encode_utf8(a.model_id@);
    let ta = encode_utf8(transport_name(a.transport));
    let pb = encode_utf8(b.provider_id@);
    let mb = encode_utf8(b.model_id@);
    let tb = encode_utf8(transport_name(b.transport));
    lemma_transport_bytes_short(a.transport);
    lemma_transport_bytes_short(b.transport);
    assert(binding(a) =~= length_prefixed(pa) + (length_prefixed(ma) + length_prefixed(ta)));
    assert(binding(b) =~= length_prefixed(pb) + (length_prefixed(mb) + length_prefixed(tb)));
    lemma_length_prefixed_unambiguous(pa, length_prefixed(ma) + length_prefixed(ta), pb,
        length_prefixed(mb) + length_prefixed(tb));
    lemma_length_prefixed_unambiguous(ma, length_prefixed(ta), mb, length_prefixed(tb));
    let empty = Seq::<u8>::empty();
    assert(length_prefixed(ta) + empty =~= length_prefixed(ta));
    assert(length_prefixed(tb) + empty =~= length_prefixed(tb));
    lemma_length_prefixed_unambiguous(ta, empty, tb, empty);
    encode_utf8_decode_utf8(a.provider_id@);
    encode_utf8_decode_utf8(b.provider_id@);
    encode_utf8_decode_utf8(a.model_id@);
    encode_utf8_decode_utf8(b.model_id@);
    encode_utf8_decode_utf8(transport_name(a.transport));
    encode_utf8_decode_utf8(transport_name(b.transport));
    lemma_transport_name_injective(a.transport, b.transport);
}


/// A fixed text, then a JSON string, then anything: the strings and the rests agree.
pub(crate) proof fn lemma_peel_string(lit: Seq<u8>, a: Seq<char>, b: Seq<char>, x: Seq<u8>, y: Seq<u8>)
    requires
        lit + json_string(a) + x == lit + json_string(b) + y,
    ensures
        a == b,
        x == y,
{
    assert(lit + json_string(a) + x =~= lit + (json_string(a) + x));
    assert(lit + json_string(b) + y =~= lit + (json_string(b) + y));
    lemma_cancel_prefix(lit, json_string(a) + x, json_string(b) + y);
    lemma_json_string_unambiguous(a, b, x, y);
}

/// An identity's JSON object, followed by anything, determines the identity.
#[verifier::spinoff_prover]
#[verifier::rlimit(40)]
pub(crate) proof fn lemma_identity_json_unambiguous(
    a: ProviderIdentity,
    b: ProviderIdentity,
    x: Seq<u8>,
    y: Seq<u8>,
)
    requires
        identity_json(a) + x == identity_json(b) + y,
    ensures
        a.provider_id@ == b.provider_id@,
        a.model_id@ == b.model_id@,
        a.transport == b.transport,
        x == y,
{
    let k1 = encode_utf8("{\"provider_id\":"@);
    let k2 = encode_utf8(",\"model_id\":"@);
    let k3 = encode_utf8(",\"transport\":"@);
    let k4 = encode_utf8("}"@);
    let ua = k3 + json_string(transport_name(a.transport)) + (k4 + x);
    let ub = k3 + json_string(transport_name(b.transport)) + (k4 + y);
    let ta = k2 + json_string(a.model_id@) + ua;
    let tb = k2 + json_string(b.model_id@) + ub;
    assert(identity_json(a) + x =~= k1 + json_string(a.provider_id@) + ta);
    assert(identity_json(b) + y =~= k1 + json_string(b.provider_id@) + tb);
    lemma_peel_string(k1, a.provider_id@, b.provider_id@, ta, tb);
    lemma_peel_string(k2, a.model_id@, b.model_id@, ua, ub);
    lemma_peel_string(k3, transport_name(a.transport), transport_name(b.transport), k4 + x, k4 + y);
    lemma_transport_name_injective(a.transport, b.transport);
    lemma_cancel_prefix(k4, x, y);
}

/// The JSON form of an optional seed determines the seed.
proof fn lemma_optional_u64_json_injective(s: Option<u64>, t: Option<u64>)
    requires
        optional_u64_json(s) == optional_u64_json(t),
    ensures
        s == t,
{
    reveal_strlit("null");
    assert(is_ascii_chars("null"@));
    is_ascii_chars_encode_utf8("null"@);
    match (s, t) {
        (Some(n), Some(m)) => {
            lemma_decimal_injective(n as nat, m as nat);
        },
        (Some(n), None) => {
            lemma_decimal_digits(n as nat);
            assert(optional_u64_json(s)[0] == optional_u64_json(t)[0]);
        },
        (None, Some(m)) => {
            lemma_decimal_digits(m as nat);
            assert(optional_u64_json(s)[0] == optional_u64_json(t)[0]);
        },
        (None, None) => {},
    }
}

/// A request's JSON object, followed by the same text, determines the request.
#[verifier::spinoff_prover]
#[verifier::rlimit(40)]
proof fn lemma_request_json_unambiguous(a: InferenceRequest, b: InferenceRequest, x: Seq<u8>)
    requires
        request_json(a) + x == request_json(b) + x,
    ensures
        a.experiment_id@ == b.experiment_id@,
        a.prompt@ == b.prompt@,
        a.seed == b.seed,
{
    let m1 = encode_utf8("{\"experiment_id\":"@);
    let m2 = encode_utf8(",\"prompt\":"@);
    let m3 = encode_utf8(",\"seed\":"@);
    let m4 = encode_utf8("}"@) + x;
    let ua = m3 + optional_u64_json(a.seed) + m4;
    let ub = m3 + optional_u64_json(b.seed) + m4;
    let ta = m2 + json_string(a.prompt@) + ua;
    let tb = m2 + json_string(b.prompt@) + ub;
    assert(request_json(a) + x =~= m1 + json_string(a.experiment_id@) + ta);
    assert(request_json(b) + x =~= m1 + json_string(b.experiment_id@) + tb);
    lemma_peel_string(m1, a.experiment_id@, b.experiment_id@, ta, tb);
    lemma_peel_string(m2, a.prompt@, b.prompt@, ua, ub);
    assert(ua =~= m3 + (optional_u64_json(a.seed) + m4));
    assert(ub =~= m3 + (optional_u64_json(b.seed) + m4));
    lemma_cancel_prefix(m3, optional_u64_json(a.seed) + m4, optional_u64_json(b.seed) + m4);
    lemma_cancel_suffix(optional_u64_json(a.seed), optional_u64_json(b.seed), m4);
    lemma_optional_u64_json_injective(a.seed, b.seed);
}

/// The canonical request document after its schema field.
spec fn document_after_schema(id: ProviderIdentity, r: InferenceRequest) -> Seq<u8> {
    encode_utf8(",\"profile\":"@) + json_string(PROFILE_ID@) + (encode_utf8(
        ",\"provider_identity\":"@,
    ) + identity_json(id) + (encode_utf8(",\"request\":"@) + request_json(r) + encode_utf8(
        "}"@,
    )))
}

proof fn lemma_document_shape(id: ProviderIdentity, r: InferenceRequest)
    ensures
        canonical_request_document(id, r) == encode_utf8("{\"schema\":"@) + json_string(
            CANONICAL_REQUEST_SCHEMA@,
        ) + document_after_schema(id, r),
{
    assert(canonical_request_document(id, r) =~= encode_utf8("{\"schema\":"@) + json_string(
        CANONICAL_REQUEST_SCHEMA@,
    ) + document_after_schema(id, r));
}

/// The canonical request document binds the identity and the request: two
/// documents agree only when the provider ids, model ids, transports,
/// experiment ids, prompts and seeds all agree. (Distinct documents then have
/// distinct input digests unless SHA-256 collides.)
pub proof fn lemma_canonical_document_binds(
    id1: ProviderIdentity,
    r1: InferenceRequest,
    id2: ProviderIdentity,
    r2: InferenceRequest,
)
    requires
        canonical_request_document(id1, r1) == canonical_request_document(id2, r2),
    ensures
        id1.provider_id@ == id2.provider_id@,
        id1.model_id@ == id2.model_id@,
        id1.transport == id2.transport,
        r1.experiment_id@ == r2.experiment_id@,
        r1.prompt@ == r2.prompt@,
        r1.seed == r2.seed,
{
    let l1 = encode_utf8("{\"schema\":"@);
    let l2 = encode_utf8(",\"profile\":"@);
    let l3 = encode_utf8(",\"provider_identity\":"@);
    let l4 = encode_utf8(",\"request\":"@);
    let l5 = encode_utf8("}"@);
    lemma_document_shape(id1, r1);
    lemma_document_shape(id2, r2);
    lemma_peel_string(
        l1,
        CANONICAL_REQUEST_SCHEMA@,
        CANONICAL_REQUEST_SCHEMA@,
        document_after_schema(id1, r1),
        document_after_schema(id2, r2),
    );
    let wa = l4 + request_json(r1) + l5;
    let wb = l4 + request_json(r2) + l5;
    let va = l3 + identity_json(id1) + wa;
    let vb = l3 + identity_json(id2) + wb;
    lemma_peel_string(l2, PROFILE_ID@, PROFILE_ID@, va, vb);
    assert(va =~= l3 + (identity_json(id1) + wa));
    assert(vb =~= l3 + (identity_json(id2) + wb));
    lemma_cancel_prefix(l3, identity_json(id1) + wa, identity_json(id2) + wb);
    lemma_identity_json_unambiguous(id1, id2, wa, wb);
    assert(wa =~= l4 + (request_json(r1) + l5));
    assert(wb =~= l4 + (request_json(r2) + l5));
    lemma_cancel_prefix(l4, request_json(r1) + l5, request_json(r2) + l5);
    lemma_request_json_unambiguous(r1, r2, l5);
}

} // verus!
