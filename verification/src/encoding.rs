//! Byte framings: big-endian lengths, length-prefixed fields and decimal numbers.
use vstd::prelude::*;

verus! {

/// The eight bytes of `n`, most significant first (`u64::to_be_bytes`).
pub open spec fn u64_be_bytes(n: u64) -> Seq<u8> {
    seq![
        (n >> 56u64) as u8,
        (n >> 48u64) as u8,
        (n >> 40u64) as u8,
        (n >> 32u64) as u8,
        (n >> 24u64) as u8,
        (n >> 16u64) as u8,
        (n >> 8u64) as u8,
        n as u8,
    ]
}

/// A field framed by its length: the length as eight big-endian bytes, then the bytes.
pub open spec fn length_prefixed(value: Seq<u8>) -> Seq<u8> {
    u64_be_bytes(value.len() as u64) + value
}

/// The decimal digits of `n` as ASCII bytes, without leading zeros.
pub open spec fn decimal(n: nat) -> Seq<u8>
    decreases n,
{
    if n < 10 {
        seq![(0x30 + n) as u8]
    } else {
        decimal(n / 10).push((0x30 + n % 10) as u8)
    }
}

/// Appends `bytes` to `target`.
pub fn append_bytes(target: &mut Vec<u8>, bytes: &[u8])
    ensures
        final(target)@ == old(target)@ + bytes@,
{
    let mut i: usize = 0;
    while i < bytes.len()
        invariant
            i <= bytes@.len(),
            target@ == old(target)@ + bytes@.subrange(0, i as int),
        decreases bytes.len() - i,
    {
        target.push(bytes[i]);
        assert(bytes@.subrange(0, i + 1) =~= bytes@.subrange(0, i as int).push(bytes@[i as int]));
        i = i + 1;
    }
    assert(bytes@.subrange(0, bytes@.len() as int) =~= bytes@);
}

pub fn u64_to_be_bytes(n: u64) -> (r: Vec<u8>)
    ensures
        r@ == u64_be_bytes(n),
{
    let mut r: Vec<u8> = Vec::new();
    r.push((n >> 56u64) as u8);
    r.push((n >> 48u64) as u8);
    r.push((n >> 40u64) as u8);
    r.push((n >> 32u64) as u8);
    r.push((n >> 24u64) as u8);
    r.push((n >> 16u64) as u8);
    r.push((n >> 8u64) as u8);
    r.push(n as u8);
    assert(r@ =~= u64_be_bytes(n));
    r
}

/// Appends `value` preceded by its length as eight big-endian bytes.
pub fn append_length_prefixed(target: &mut Vec<u8>, value: &[u8])
    ensures
        final(target)@ == old(target)@ + length_prefixed(value@),
{
    let len = u64_to_be_bytes(value.len() as u64);
    append_bytes(target, len.as_slice());
    append_bytes(target, value);
    assert(target@ =~= old(target)@ + length_prefixed(value@));
}

/// The decimal rendering of `n` (as `itoa` and `u64::to_string` write it).
pub fn u64_decimal(n: u64) -> (r: Vec<u8>)
    ensures
        r@ == decimal(n as nat),
    decreases n,
{
    if n < 10 {
        let mut r: Vec<u8> = Vec::new();
        r.push(0x30u8 + n as u8);
        assert(r@ =~= decimal(n as nat));
        r
    } else {
        let mut r = u64_decimal(n / 10);
        r.push(0x30u8 + (n % 10) as u8);
        r
    }
}

/// Two big-endian renderings agree only for the same number.
pub proof fn lemma_u64_be_bytes_injective(a: u64, b: u64)
    requires
        u64_be_bytes(a) == u64_be_bytes(b),
    ensures
        a == b,
{
    let sa = u64_be_bytes(a);
    let sb = u64_be_bytes(b);
    assert(sa[0] == sb[0] && sa[1] == sb[1] && sa[2] == sb[2] && sa[3] == sb[3]);
    assert(sa[4] == sb[4] && sa[5] == sb[5] && sa[6] == sb[6] && sa[7] == sb[7]);
    assert(a == b) by (bit_vector)
        requires
            (a >> 56u64) as u8 == (b >> 56u64) as u8,
            (a >> 48u64) as u8 == (b >> 48u64) as u8,
            (a >> 40u64) as u8 == (b >> 40u64) as u8,
            (a >> 32u64) as u8 == (b >> 32u64) as u8,
            (a >> 24u64) as u8 == (b >> 24u64) as u8,
            (a >> 16u64) as u8 == (b >> 16u64) as u8,
            (a >> 8u64) as u8 == (b >> 8u64) as u8,
            a as u8 == b as u8,
    ;
}

/// A length-prefixed field can be told apart from what follows it: when two
/// framed fields followed by arbitrary tails agree, the fields and the tails agree.
pub proof fn lemma_length_prefixed_unambiguous(a: Seq<u8>, rest_a: Seq<u8>, b: Seq<u8>, rest_b: Seq<u8>)
    requires
        a.len() <= u64::MAX,
        b.len() <= u64::MAX,
        length_prefixed(a) + rest_a == length_prefixed(b) + rest_b,
    ensures
        a == b,
        rest_a == rest_b,
{
    let whole_a = length_prefixed(a) + rest_a;
    let whole_b = length_prefixed(b) + rest_b;
    assert(whole_a.subrange(0, 8) =~= u64_be_bytes(a.len() as u64));
    assert(whole_b.subrange(0, 8) =~= u64_be_bytes(b.len() as u64));
    lemma_u64_be_bytes_injective(a.len() as u64, b.len() as u64);
    assert(a.len() == b.len());
    assert(whole_a.subrange(8, 8 + a.len() as int) =~= a);
    assert(whole_b.subrange(8, 8 + b.len() as int) =~= b);
    assert(whole_a.subrange(8 + a.len() as int, whole_a.len() as int) =~= rest_a);
    assert(whole_b.subrange(8 + b.len() as int, whole_b.len() as int) =~= rest_b);
}


/// Every byte of a decimal rendering is an ASCII digit, and there is at least one.
pub proof fn lemma_decimal_digits(n: nat)
    ensures
        decimal(n).len() >= 1,
        forall|i: int| 0 <= i < decimal(n).len() ==> 0x30 <= #[trigger] decimal(n)[i] <= 0x39,
    decreases n,
{
    if n >= 10 {
        lemma_decimal_digits(n / 10);
    }
}

/// Distinct numbers have distinct decimal renderings.
pub proof fn lemma_decimal_injective(n: nat, m: nat)
    requires
        decimal(n) == decimal(m),
    ensures
        n == m,
    decreases n,
{
    lemma_decimal_digits(n / 10);
    lemma_decimal_digits(m / 10);
    if n >= 10 && m >= 10 {
        assert(decimal(n).drop_last() =~= decimal(n / 10));
        assert(decimal(m).drop_last() =~= decimal(m / 10));
        lemma_decimal_injective(n / 10, m / 10);
        assert(decimal(n).last() == decimal(m).last());
        assert(decimal(n).last() == (0x30 + n % 10) as u8);
        assert(decimal(m).last() == (0x30 + m % 10) as u8);
        assert(n % 10 == m % 10);
        assert(n == (n / 10) * 10 + n % 10);
        assert(m == (m / 10) * 10 + m % 10);
    } else if n < 10 && m < 10 {
        assert(decimal(n)[0] == decimal(m)[0]);
        assert(decimal(n)[0] == (0x30 + n) as u8);
        assert(decimal(m)[0] == (0x30 + m) as u8);
    } else if n >= 10 {
        assert(decimal(n).len() >= 2);
        assert(decimal(m).len() == 1);
    } else {
        assert(decimal(m).len() >= 2);
        assert(decimal(n).len() == 1);
    }
}

/// A common beginning can be cancelled.
pub proof fn lemma_cancel_prefix(p: Seq<u8>, x: Seq<u8>, y: Seq<u8>)
    requires
        p + x == p + y,
    ensures
        x == y,
{
    assert((p + x).subrange(p.len() as int, (p + x).len() as int) =~= x);
    assert((p + y).subrange(p.len() as int, (p + y).len() as int) =~= y);
}

/// A common ending can be cancelled.
pub proof fn lemma_cancel_suffix(x: Seq<u8>, y: Seq<u8>, s: Seq<u8>)
    requires
        x + s == y + s,
    ensures
        x == y,
{
    assert((x + s).len() == x.len() + s.len());
    assert((y + s).len() == y.len() + s.len());
    assert((x + s).subrange(0, x.len() as int) =~= x);
    assert((y + s).subrange(0, y.len() as int) =~= y);
}

} // verus!
