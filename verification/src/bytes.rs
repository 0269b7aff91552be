//! Big-endian byte strings and the numbers they stand for.
use vstd::arithmetic::power2::*;
use vstd::prelude::*;

verus! {

/// The number that `s` spells, most significant byte first.
pub open spec fn be_value(s: Seq<u8>) -> nat
    decreases s.len(),
{
    if s.len() == 0 {
        0
    } else {
        be_value(s.drop_last()) * 256 + s.last() as nat
    }
}

/// A byte string of `n` bytes spells a number below `2^(8n)`.
pub proof fn lemma_be_value_bound(s: Seq<u8>)
    ensures
        be_value(s) < pow2(8 * s.len()),
    decreases s.len(),
{
    if s.len() == 0 {
        lemma2_to64();
    } else {
        lemma_be_value_bound(s.drop_last());
        let k = (8 * (s.len() - 1)) as nat;
        lemma_pow2_adds(k, 8);
        lemma2_to64();
        assert(pow2(8 * s.len()) == pow2(k) * 256);
    }
}

/// Concatenation shifts the number on the left by the length of the right.
pub proof fn lemma_be_value_concat(a: Seq<u8>, b: Seq<u8>)
    ensures
        be_value(a + b) == be_value(a) * pow2(8 * b.len()) + be_value(b),
    decreases b.len(),
{
    if b.len() == 0 {
        lemma2_to64();
        assert(a + b =~= a);
        assert(be_value(a) * pow2(0) == be_value(a)) by (nonlinear_arith)
            requires
                pow2(0) == 1,
        ;
    } else {
        let c = b.drop_last();
        lemma_be_value_concat(a, c);
        assert((a + b).drop_last() =~= a + c);
        assert((a + b).last() == b.last());
        let k = (8 * c.len()) as nat;
        lemma_pow2_adds(k, 8);
        lemma2_to64();
        let (x, p) = (be_value(a), pow2(k));
        assert((x * p) * 256 == x * (p * 256)) by (nonlinear_arith);
        assert((x * p + be_value(c)) * 256 == (x * p) * 256 + be_value(c) * 256);
    }
}

/// The number of a byte string, cut in two at `k`.
pub proof fn lemma_be_value_split(s: Seq<u8>, k: int)
    requires
        0 <= k <= s.len(),
    ensures
        be_value(s) == be_value(s.take(k)) * pow2((8 * (s.len() - k)) as nat) + be_value(s.skip(k)),
{
    assert(s =~= s.take(k) + s.skip(k));
    lemma_be_value_concat(s.take(k), s.skip(k));
}

/// Two byte strings of one length that spell one number are the same string.
pub proof fn lemma_be_value_injective(a: Seq<u8>, b: Seq<u8>)
    requires
        a.len() == b.len(),
        be_value(a) == be_value(b),
    ensures
        a == b,
    decreases a.len(),
{
    if a.len() > 0 {
        lemma_be_value_injective(a.drop_last(), b.drop_last());
        assert(a =~= a.drop_last().push(a.last()));
        assert(b =~= b.drop_last().push(b.last()));
    } else {
        assert(a =~= b);
    }
}

/// A run of zero bytes spells zero.
pub proof fn lemma_be_value_zeros(s: Seq<u8>)
    requires
        forall|i: int| 0 <= i < s.len() ==> s[i] == 0,
    ensures
        be_value(s) == 0,
    decreases s.len(),
{
    if s.len() > 0 {
        lemma_be_value_zeros(s.drop_last());
    }
}

/// Where two byte strings first differ decides which number is larger.
pub proof fn lemma_be_value_order(a: Seq<u8>, b: Seq<u8>, i: int)
    requires
        a.len() == b.len(),
        0 <= i < a.len(),
        a.take(i) == b.take(i),
        a[i] > b[i],
    ensures
        be_value(a) > be_value(b),
{
    let k = (8 * (a.len() - i - 1)) as nat;
    lemma_be_value_split(a, i + 1);
    lemma_be_value_split(b, i + 1);
    assert(a.take(i + 1).drop_last() =~= a.take(i));
    assert(b.take(i + 1).drop_last() =~= b.take(i));
    lemma_be_value_bound(b.skip(i + 1));
    let (x, y, p) = (be_value(a.take(i + 1)), be_value(b.take(i + 1)), pow2(k));
    assert(x * p >= y * p + p) by (nonlinear_arith)
        requires
            x >= y + 1,
    ;
}

/// A run of `n` bytes `0xff` spells `2^(8n) - 1`.
pub proof fn lemma_be_value_all_ones(s: Seq<u8>)
    requires
        forall|i: int| 0 <= i < s.len() ==> s[i] == 0xff,
    ensures
        be_value(s) == pow2(8 * s.len()) - 1,
    decreases s.len(),
{
    lemma2_to64();
    if s.len() > 0 {
        lemma_be_value_all_ones(s.drop_last());
        lemma_pow2_adds((8 * (s.len() - 1)) as nat, 8);
    }
}

/// The number spelled by the `len` bytes of `bytes` that start at `at`.
pub fn read_be(bytes: &[u8; 32], at: usize, len: usize) -> (value: u128)
    requires
        at + len <= 32,
        len <= 16,
    ensures
        value == be_value(bytes@.subrange(at as int, at + len)),
{
    let mut value: u128 = 0;
    let mut i: usize = 0;
    proof {
        assert(bytes@.subrange(at as int, at + 0) =~= Seq::empty());
    }
    while i < len
        invariant
            i <= len,
            at + len <= 32,
            len <= 16,
            value == be_value(bytes@.subrange(at as int, at + i)),
        decreases len - i,
    {
        proof {
            let prefix = bytes@.subrange(at as int, at + i);
            let longer = bytes@.subrange(at as int, at + i + 1);
            assert(longer.drop_last() =~= prefix);
            assert(longer.last() == bytes@[at + i]);
            lemma_be_value_bound(longer);
            assert(pow2(8 * longer.len()) <= pow2(128)) by {
                if longer.len() < 16 {
                    lemma_pow2_strictly_increases(8 * longer.len(), 128);
                }
            }
            lemma_two_to_128();
        }
        value = value * 256 + bytes[at + i] as u128;
        i = i + 1;
    }
    value
}

/// `2^128` is one more than the largest `u128`.
pub proof fn lemma_two_to_128()
    ensures
        pow2(128) == u128::MAX + 1,
{
    lemma2_to64_rest();
    lemma_pow2_adds(64, 64);
    assert(0x1_0000_0000_0000_0000int * 0x1_0000_0000_0000_0000int
        == 0x1_0000_0000_0000_0000_0000_0000_0000_0000int) by (nonlinear_arith);
}

/// Spells `value` in the `len` bytes of `bytes` that start at `at`, and leaves
/// the other bytes as they are.
pub fn write_be(bytes: &mut [u8; 32], at: usize, len: usize, value: u128)
    requires
        at + len <= 32,
        len <= 16,
        value < pow2(8 * len as nat),
    ensures
        be_value(final(bytes)@.subrange(at as int, at + len)) == value,
        forall|i: int|
            0 <= i < 32 && !(at <= i < at + len) ==> final(bytes)@[i] == old(bytes)@[i],
{
    let mut rest: u128 = value;
    let mut i: usize = len;
    proof {
        lemma2_to64();
        assert(bytes@.subrange(at + len, at + len) =~= Seq::empty());
        assert(value * pow2(0) == value) by (nonlinear_arith)
            requires
                pow2(0) == 1,
        ;
    }
    while i > 0
        invariant
            i <= len,
            at + len <= 32,
            len <= 16,
            rest < pow2(8 * i as nat),
            value == rest * pow2((8 * (len - i)) as nat) + be_value(
                bytes@.subrange(at + i, at + len),
            ),
            forall|j: int|
                0 <= j < 32 && !(at <= j < at + len) ==> bytes@[j] == old(bytes)@[j],
        decreases i,
    {
        let low: u8 = (rest % 256) as u8;
        let ghost before = bytes@;
        let ghost r = rest as nat;
        i = i - 1;
        bytes[at + i] = low;
        rest = rest / 256;
        proof {
            let tail = before.subrange(at + i + 1, at + len);
            let longer = bytes@.subrange(at + i, at + len);
            assert(longer =~= seq![low] + tail);
            lemma_be_value_concat(seq![low], tail);
            assert(seq![low].drop_last() =~= Seq::<u8>::empty());
            assert(be_value(Seq::<u8>::empty()) == 0);
            assert(be_value(seq![low]) == low as nat);
            let k = (8 * tail.len()) as nat;
            lemma_pow2_adds(k, 8);
            lemma_pow2_adds(8 * i as nat, 8);
            lemma2_to64();
            let p = pow2(k);
            assert(r == (r / 256) * 256 + low);
            assert(r * p == (r / 256) * (p * 256) + low as nat * p) by (nonlinear_arith)
                requires
                    r == (r / 256) * 256 + low,
            ;
            assert(rest < pow2(8 * i as nat)) by (nonlinear_arith)
                requires
                    r < pow2(8 * i as nat) * 256,
                    rest == r / 256,
            ;
        }
    }
    proof {
        lemma2_to64();
    }
}

} // verus!
