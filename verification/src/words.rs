//! The 32-byte words and 20-byte account addresses that contracts exchange.
use crate::bytes;
use vstd::arithmetic::power2::*;
use vstd::prelude::*;

verus! {

/// A 32-byte word. Read as a number it is big-endian.
#[derive(Clone, Copy, Debug, Eq)]
pub struct B256(pub [u8; 32]);

/// A 20-byte account address.
#[derive(Clone, Copy, Debug, Eq)]
pub struct Address(pub [u8; 20]);

impl PartialEq for B256 {
    fn eq(&self, other: &Self) -> (same: bool) {
        let mut i: usize = 0;
        while i < 32
            invariant
                i <= 32,
                forall|j: int| 0 <= j < i ==> self.0[j] == other.0[j],
            decreases 32 - i,
        {
            if self.0[i] != other.0[i] {
                return false;
            }
            i = i + 1;
        }
        assert(self.0 =~= other.0);
        true
    }
}

impl vstd::std_specs::cmp::PartialEqSpecImpl for B256 {
    open spec fn obeys_eq_spec() -> bool {
        true
    }

    open spec fn eq_spec(&self, other: &Self) -> bool {
        *self == *other
    }
}

impl PartialEq for Address {
    fn eq(&self, other: &Self) -> (same: bool) {
        let mut i: usize = 0;
        while i < 20
            invariant
                i <= 20,
                forall|j: int| 0 <= j < i ==> self.0[j] == other.0[j],
            decreases 20 - i,
        {
            if self.0[i] != other.0[i] {
                return false;
            }
            i = i + 1;
        }
        assert(self.0 =~= other.0);
        true
    }
}

impl vstd::std_specs::cmp::PartialEqSpecImpl for Address {
    open spec fn obeys_eq_spec() -> bool {
        true
    }

    open spec fn eq_spec(&self, other: &Self) -> bool {
        *self == *other
    }
}

impl B256 {
    /// The word read as an unsigned 256-bit number.
    pub open spec fn value(self) -> nat {
        bytes::be_value(self.0@)
    }

    /// The all-zero word, which stands for "no order" and "no node".
    pub fn zero() -> (word: B256)
        ensures
            word.is_zero(),
            word.value() == 0,
    {
        let word = B256([0u8; 32]);
        proof {
            bytes::lemma_be_value_zeros(word.0@);
        }
        word
    }

    /// The largest 256-bit number.
    pub fn max() -> (word: B256)
        ensures
            word.value() == pow2(256) - 1,
    {
        let word = B256([0xffu8; 32]);
        proof {
            bytes::lemma_be_value_all_ones(word.0@);
        }
        word
    }

    /// The word that spells `n`.
    pub fn from_u128(n: u128) -> (word: B256)
        ensures
            word.value() == n,
    {
        let mut bytes: [u8; 32] = [0u8; 32];
        proof {
            bytes::lemma_two_to_128();
        }
        bytes::write_be(&mut bytes, 16, 16, n);
        proof {
            bytes::lemma_be_value_split(bytes@, 16);
            bytes::lemma_be_value_zeros(bytes@.take(16));
            assert(bytes@.skip(16) =~= bytes@.subrange(16, 32));
            assert(0 * pow2(128) == 0) by (nonlinear_arith);
        }
        B256(bytes)
    }

    /// Every byte of the word is zero.
    pub open spec fn is_zero(self) -> bool {
        forall|i: int| 0 <= i < 32 ==> self.0@[i] == 0
    }

    /// Whether every byte of the word is zero.
    pub fn is_empty(&self) -> (zero: bool)
        ensures
            zero == self.is_zero(),
    {
        let mut i: usize = 0;
        while i < 32
            invariant
                i <= 32,
                forall|j: int| 0 <= j < i ==> self.0@[j] == 0,
            decreases 32 - i,
        {
            if self.0[i] != 0 {
                return false;
            }
            i = i + 1;
        }
        true
    }

    /// Whether this number is at least `other`.
    pub fn at_least(&self, other: &B256) -> (ge: bool)
        ensures
            ge == (self.value() >= other.value()),
    {
        let mut i: usize = 0;
        proof {
            assert(self.0@.take(0) =~= other.0@.take(0));
        }
        while i < 32
            invariant
                i <= 32,
                self.0@.take(i as int) == other.0@.take(i as int),
            decreases 32 - i,
        {
            if self.0[i] != other.0[i] {
                proof {
                    if self.0@[i as int] > other.0@[i as int] {
                        bytes::lemma_be_value_order(self.0@, other.0@, i as int);
                    } else {
                        bytes::lemma_be_value_order(other.0@, self.0@, i as int);
                    }
                }
                return self.0[i] > other.0[i];
            }
            assert(self.0@.take(i + 1) =~= self.0@.take(i as int).push(self.0@[i as int]));
            assert(other.0@.take(i + 1) =~= other.0@.take(i as int).push(other.0@[i as int]));
            i = i + 1;
        }
        assert(self.0@.take(32) =~= self.0@);
        assert(other.0@.take(32) =~= other.0@);
        true
    }
}

/// Byte `i` of a word, counted from the left, is digit `31 - i` of its number in
/// base 256, and the number has no digit beyond the 32.
pub proof fn law_bytes_are_the_digits(word: B256, i: int)
    requires
        0 <= i < 32,
    ensures
        (word.value() / pow2((8 * (31 - i)) as nat)) % 256 == word.0@[i],
        word.value() < pow2(256),
{
    let s = word.0@;
    let p = pow2((8 * (31 - i)) as nat);
    bytes::lemma_be_value_bound(s);
    bytes::lemma_be_value_split(s, i + 1);
    bytes::lemma_be_value_bound(s.skip(i + 1));
    let (head, tail) = (bytes::be_value(s.take(i + 1)), bytes::be_value(s.skip(i + 1)));
    vstd::arithmetic::div_mod::lemma_fundamental_div_mod_converse(
        word.value() as int,
        p as int,
        head as int,
        tail as int,
    );
    assert(s.take(i + 1).last() == s[i]);
}

/// The zero word is the one that spells zero; any other has a byte that is not
/// zero.
pub proof fn law_zero_word_spells_zero(word: B256)
    ensures
        word.is_zero() <==> word.value() == 0,
        word.is_zero() <==> word.0@ == Seq::new(32, |i: int| 0u8),
{
    let zeros = Seq::new(32, |i: int| 0u8);
    bytes::lemma_be_value_zeros(zeros);
    if word.value() == 0 {
        bytes::lemma_be_value_injective(word.0@, zeros);
    }
    if word.is_zero() {
        assert(word.0@ =~= zeros);
    }
}

} // verus!
