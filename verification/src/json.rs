//! JSON text for the documents the runtime hashes and sends. Strings are
//! escaped by `serde_json`; objects are framed here, in the compact form with
//! the fields in declaration order that `serde_json` writes for a struct.
use vstd::prelude::*;
use vstd::utf8::{
    char_is_scalar, encode_scalar, has_width_1_encoding, has_width_2_encoding, has_width_3_encoding,
    has_width_4_encoding, last_continuation_byte, leading_byte_width_1, leading_byte_width_2,
    leading_byte_width_3, leading_byte_width_4, second_last_continuation_byte,
    third_last_continuation_byte,
};
use crate::encoding::append_bytes;

verus! {

/// The bytes that stand for `c` inside a JSON string: `"` and `\` and the control
/// characters below U+0020 are escaped (`\b \t \n \f \r` by name, the others as
/// `\u00XX` with lower-case hex digits); every other character is its UTF-8 encoding.
pub open spec fn json_escaped_char(c: char) -> Seq<u8> {
    let u = c as u32;
    if u == 0x22 {
        seq![0x5Cu8, 0x22u8]
    } else if u == 0x5C {
        seq![0x5Cu8, 0x5Cu8]
    } else if u == 0x08 {
        seq![0x5Cu8, 0x62u8]
    } else if u == 0x09 {
        seq![0x5Cu8, 0x74u8]
    } else if u == 0x0A {
        seq![0x5Cu8, 0x6Eu8]
    } else if u == 0x0C {
        seq![0x5Cu8, 0x66u8]
    } else if u == 0x0D {
        seq![0x5Cu8, 0x72u8]
    } else if u < 0x20 {
        seq![0x5Cu8, 0x75u8, 0x30u8, 0x30u8, (0x30 + u / 16) as u8, hex_byte(u % 16)]
    } else {
        encode_scalar(u)
    }
}

/// The ASCII byte of a lower-case hexadecimal digit.
pub open spec fn hex_byte(v: u32) -> u8 {
    if v < 10 {
        (0x30 + v) as u8
    } else {
        (0x57 + v) as u8
    }
}

pub open spec fn json_escaped(s: Seq<char>) -> Seq<u8>
    decreases s.len(),
{
    if s.len() == 0 {
        Seq::empty()
    } else {
        json_escaped(s.drop_last()) + json_escaped_char(s.last())
    }
}

/// The JSON string literal for `s`.
pub open spec fn json_string(s: Seq<char>) -> Seq<u8> {
    seq![0x22u8] + json_escaped(s) + seq![0x22u8]
}

/// `serde_json::to_vec` on a string slice. Claimed: it succeeds, and the bytes
/// are the JSON string literal `json_string(s@)`, as its `format_escaped_str`
/// writes it. Its documentation names the only ways serialization fails: the
/// value's `Serialize` impl decides to fail, or the value holds a map with
/// non-string keys. Neither can happen for a `str`, whose impl only calls
/// `serialize_str`.
#[verifier::external_body]
fn json_string_bytes(s: &str) -> (r: Result<Vec<u8>, serde_json::Error>)
    ensures
        r is Ok,
        r matches Ok(bytes) ==> bytes@ == json_string(s@),
{
    serde_json::to_vec(s)
}

/// Appends the JSON string literal for `s`.
pub fn push_json_string(out: &mut Vec<u8>, s: &str)
    ensures
        final(out)@ == old(out)@ + json_string(s@),
{
    if let Ok(bytes) = json_string_bytes(s) {
        append_bytes(out, bytes.as_slice());
    }
}


/// The first byte of a scalar's UTF-8 encoding tells how long the encoding is.
proof fn lemma_scalar_lead_byte(u: u32)
    requires
        has_width_1_encoding(u) || has_width_2_encoding(u) || has_width_3_encoding(u)
            || has_width_4_encoding(u),
    ensures
        has_width_1_encoding(u) ==> encode_scalar(u).len() == 1 && encode_scalar(u)[0] == u,
        has_width_2_encoding(u) ==> encode_scalar(u).len() == 2 && 0xC0 <= encode_scalar(u)[0]
            < 0xE0,
        has_width_3_encoding(u) ==> encode_scalar(u).len() == 3 && 0xE0 <= encode_scalar(u)[0]
            < 0xF0,
        has_width_4_encoding(u) ==> encode_scalar(u).len() == 4 && 0xF0 <= encode_scalar(u)[0],
{
    if has_width_1_encoding(u) {
        assert(leading_byte_width_1(u) == u) by (bit_vector)
            requires
                u <= 0x7F,
        ;
    } else if has_width_2_encoding(u) {
        assert(0xC0 <= leading_byte_width_2(u) < 0xE0) by (bit_vector);
    } else if has_width_3_encoding(u) {
        assert(0xE0 <= leading_byte_width_3(u) < 0xF0) by (bit_vector);
    } else {
        assert(0xF0 <= leading_byte_width_4(u)) by (bit_vector);
    }
}

/// UTF-8 is a prefix code: an encoded scalar followed by anything can be told
/// apart from any other encoded scalar followed by anything.
proof fn lemma_scalar_prefix_free(c: char, d: char, x: Seq<u8>, y: Seq<u8>)
    requires
        encode_scalar(c as u32) + x == encode_scalar(d as u32) + y,
    ensures
        c == d,
        x == y,
{
    let u = c as u32;
    let v = d as u32;
    char_is_scalar(c);
    char_is_scalar(d);
    lemma_scalar_lead_byte(u);
    lemma_scalar_lead_byte(v);
    let eu = encode_scalar(u);
    let ev = encode_scalar(v);
    let whole = eu + x;
    assert(whole[0] == eu[0]);
    assert((ev + y)[0] == ev[0]);
    assert(eu.len() == ev.len());
    let n = eu.len() as int;
    assert(whole.subrange(0, n) =~= eu);
    assert((ev + y).subrange(0, n) =~= ev);
    assert(eu == ev);
    assert(whole.subrange(n, whole.len() as int) =~= x);
    assert((ev + y).subrange(n, (ev + y).len() as int) =~= y);
    if has_width_1_encoding(u) {
        assert(u == v);
    } else if has_width_2_encoding(u) {
        assert(eu[1] == ev[1]);
        assert(u == v) by (bit_vector)
            requires
                0x80 <= u <= 0x7FF,
                0x80 <= v <= 0x7FF,
                leading_byte_width_2(u) == leading_byte_width_2(v),
                last_continuation_byte(u) == last_continuation_byte(v),
        ;
    } else if has_width_3_encoding(u) {
        assert(eu[1] == ev[1] && eu[2] == ev[2]);
        assert(u == v) by (bit_vector)
            requires
                0x800 <= u <= 0xFFFF,
                0x800 <= v <= 0xFFFF,
                leading_byte_width_3(u) == leading_byte_width_3(v),
                second_last_continuation_byte(u) == second_last_continuation_byte(v),
                last_continuation_byte(u) == last_continuation_byte(v),
        ;
    } else {
        assert(eu[1] == ev[1] && eu[2] == ev[2] && eu[3] == ev[3]);
        assert(u == v) by (bit_vector)
            requires
                0x10000 <= u <= 0x10FFFF,
                0x10000 <= v <= 0x10FFFF,
                leading_byte_width_4(u) == leading_byte_width_4(v),
                third_last_continuation_byte(u) == third_last_continuation_byte(v),
                second_last_continuation_byte(u) == second_last_continuation_byte(v),
                last_continuation_byte(u) == last_continuation_byte(v),
        ;
    }
    vstd::utf8::char_u32_cast(c, u);
    vstd::utf8::char_u32_cast(d, v);
}


/// Whether `c` is written as an escape sequence inside a JSON string.
pub open spec fn is_escaped(c: char) -> bool {
    (c as u32) < 0x20 || c as u32 == 0x22 || c as u32 == 0x5C
}

/// An escaped character starts with a backslash and an unescaped one does not;
/// neither starts with a double quote.
proof fn lemma_escaped_char_shape(c: char)
    ensures
        json_escaped_char(c).len() >= 1,
        json_escaped_char(c)[0] != 0x22,
        is_escaped(c) <==> json_escaped_char(c)[0] == 0x5C,
        is_escaped(c) ==> json_escaped_char(c).len() >= 2,
{
    char_is_scalar(c);
    lemma_scalar_lead_byte(c as u32);
}

proof fn lemma_hex_byte_injective(a: u32, b: u32)
    requires
        a < 16,
        b < 16,
        hex_byte(a) == hex_byte(b),
    ensures
        a == b,
{
}

/// The escaped forms of characters are a prefix code.
proof fn lemma_escaped_char_prefix_free(c: char, d: char, x: Seq<u8>, y: Seq<u8>)
    requires
        json_escaped_char(c) + x == json_escaped_char(d) + y,
    ensures
        c == d,
        x == y,
{
    lemma_escaped_char_shape(c);
    lemma_escaped_char_shape(d);
    let ec = json_escaped_char(c);
    let ed = json_escaped_char(d);
    let whole = ec + x;
    assert(whole[0] == ec[0]);
    assert((ed + y)[0] == ed[0]);
    if !is_escaped(c) && !is_escaped(d) {
        lemma_scalar_prefix_free(c, d, x, y);
    } else {
        assert(is_escaped(c) && is_escaped(d));
        assert(whole[1] == ec[1]);
        assert((ed + y)[1] == ed[1]);
        let u = c as u32;
        let v = d as u32;
        if ec[1] == 0x75u8 {
            assert(whole[4] == ec[4] && whole[5] == ec[5]);
            assert((ed + y)[4] == ed[4] && (ed + y)[5] == ed[5]);
            lemma_hex_byte_injective(u % 16, v % 16);
            assert(u == v);
        } else {
            assert(u == v);
        }
        vstd::utf8::char_u32_cast(c, u);
        vstd::utf8::char_u32_cast(d, v);
        let n = ec.len() as int;
        assert(whole.subrange(n, whole.len() as int) =~= x);
        assert((ed + y).subrange(n, (ed + y).len() as int) =~= y);
    }
}

/// Unfolding the escaped text from the front.
proof fn lemma_escaped_first(s: Seq<char>)
    requires
        s.len() > 0,
    ensures
        json_escaped(s) == json_escaped_char(s[0]) + json_escaped(s.drop_first()),
    decreases s.len(),
{
    if s.len() == 1 {
        assert(s.drop_last() =~= Seq::<char>::empty());
        assert(s.drop_first() =~= Seq::<char>::empty());
        assert(json_escaped(s) =~= json_escaped_char(s[0]) + json_escaped(s.drop_first()));
    } else {
        lemma_escaped_first(s.drop_last());
        assert(s.drop_last().drop_first() =~= s.drop_first().drop_last());
        assert(json_escaped(s) =~= json_escaped_char(s[0]) + json_escaped(s.drop_first()));
    }
}

/// An escaped text ends at the first unescaped double quote: two escaped texts,
/// each followed by a double quote and anything, agree only when the texts and
/// what follows agree.
pub proof fn lemma_escaped_text_unambiguous(a: Seq<char>, b: Seq<char>, x: Seq<u8>, y: Seq<u8>)
    requires
        json_escaped(a) + seq![0x22u8] + x == json_escaped(b) + seq![0x22u8] + y,
    ensures
        a == b,
        x == y,
    decreases a.len(),
{
    let q = seq![0x22u8];
    if a.len() == 0 && b.len() == 0 {
        assert(json_escaped(a) + q + x =~= q + x);
        assert(json_escaped(b) + q + y =~= q + y);
        assert((q + x).subrange(1, (q + x).len() as int) =~= x);
        assert((q + y).subrange(1, (q + y).len() as int) =~= y);
        assert(a =~= b);
    } else if a.len() == 0 {
        lemma_escaped_first(b);
        lemma_escaped_char_shape(b[0]);
        assert(json_escaped(a) + q + x =~= q + x);
        let rhs = json_escaped_char(b[0]) + (json_escaped(b.drop_first()) + q + y);
        assert(json_escaped(b) + q + y =~= rhs);
        assert((q + x)[0] == 0x22);
        assert(rhs[0] == json_escaped_char(b[0])[0]);
    } else if b.len() == 0 {
        lemma_escaped_first(a);
        lemma_escaped_char_shape(a[0]);
        assert(json_escaped(b) + q + y =~= q + y);
        let lhs = json_escaped_char(a[0]) + (json_escaped(a.drop_first()) + q + x);
        assert(json_escaped(a) + q + x =~= lhs);
        assert((q + y)[0] == 0x22);
        assert(lhs[0] == json_escaped_char(a[0])[0]);
    } else {
        lemma_escaped_first(a);
        lemma_escaped_first(b);
        let ta = json_escaped(a.drop_first()) + q + x;
        let tb = json_escaped(b.drop_first()) + q + y;
        assert(json_escaped(a) + q + x =~= json_escaped_char(a[0]) + ta);
        assert(json_escaped(b) + q + y =~= json_escaped_char(b[0]) + tb);
        lemma_escaped_char_prefix_free(a[0], b[0], ta, tb);
        lemma_escaped_text_unambiguous(a.drop_first(), b.drop_first(), x, y);
        assert(a =~= seq![a[0]] + a.drop_first());
        assert(b =~= seq![b[0]] + b.drop_first());
    }
}

/// A JSON string literal followed by anything can be told apart from any other
/// JSON string literal followed by anything.
pub proof fn lemma_json_string_unambiguous(a: Seq<char>, b: Seq<char>, x: Seq<u8>, y: Seq<u8>)
    requires
        json_string(a) + x == json_string(b) + y,
    ensures
        a == b,
        x == y,
{
    let q = seq![0x22u8];
    let lhs = json_string(a) + x;
    let rhs = json_string(b) + y;
    assert(lhs =~= q + (json_escaped(a) + q + x));
    assert(rhs =~= q + (json_escaped(b) + q + y));
    assert(lhs.subrange(1, lhs.len() as int) =~= json_escaped(a) + q + x);
    assert(rhs.subrange(1, rhs.len() as int) =~= json_escaped(b) + q + y);
    lemma_escaped_text_unambiguous(a, b, x, y);
}

} // verus!
