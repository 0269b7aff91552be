//! Orders and the word that carries one on the book.
//!
//! Layout, most significant bit first:
//! - bits 224-255: signed 32-bit tick (two's complement)
//! - bits 64-223:  160-bit quantity
//! - bits 32-63:   reserved
//! - bits 0-31:    32-bit nonce (0 for a fill, assigned when the order rests)
use crate::bytes;
use crate::words::B256;
use vstd::arithmetic::div_mod::*;
use vstd::arithmetic::power2::*;
use vstd::prelude::*;

verus! {

/// The lowest bit of the tick.
pub const TICK_OFFSET: usize = 224;

/// The lowest bit of the quantity.
pub const QUANTITY_OFFSET: usize = 64;

/// An order of the book.
#[derive(Debug, Clone, Copy, PartialEq, Eq, Structural)]
pub struct Order {
    pub tick: i32,
    /// The word has room for 160 bits; 128 of them are kept.
    pub quantity: u128,
    pub nonce: u32,
}

/// What would keep an order from being packed.
#[derive(Debug, Clone, Copy, PartialEq, Eq, Structural)]
pub enum PackError {
    QuantityOutOfRange,
    TickOutOfRange,
}

/// A tick as 32 bits in two's complement.
pub open spec fn tick_bits(tick: i32) -> nat {
    if tick >= 0 {
        tick as nat
    } else {
        (tick + 0x1_0000_0000) as nat
    }
}

/// The tick that 32 bits in two's complement stand for.
pub open spec fn tick_from_bits(bits: nat) -> int {
    if bits < 0x8000_0000 {
        bits as int
    } else {
        bits - 0x1_0000_0000
    }
}

/// The number that an order packs into.
pub open spec fn packed_value(tick: i32, quantity: u128, nonce: u32) -> nat {
    tick_bits(tick) * pow2(TICK_OFFSET as nat) + quantity as nat * pow2(QUANTITY_OFFSET as nat)
        + nonce as nat
}

/// The order that a word carries: the tick from the top 32 bits, the low 128
/// bits of the quantity, the nonce from the low 32 bits.
pub open spec fn order_of(word: B256) -> Order {
    order_of_value(word.value())
}

/// The order that a word with the value `v` carries.
pub open spec fn order_of_value(v: nat) -> Order {
    Order {
        tick: tick_from_bits(v / pow2(TICK_OFFSET as nat)) as i32,
        quantity: ((v / pow2(QUANTITY_OFFSET as nat)) % pow2(128)) as u128,
        nonce: (v % pow2(32)) as u32,
    }
}

/// The fields of a word by their bytes.
proof fn lemma_word_fields(word: B256)
    ensures
        word.value() / pow2(224) == bytes::be_value(word.0@.subrange(0, 4)),
        (word.value() / pow2(64)) % pow2(128) == bytes::be_value(word.0@.subrange(8, 24)),
        word.value() % pow2(32) == bytes::be_value(word.0@.subrange(28, 32)),
        word.value() / pow2(224) < 0x1_0000_0000,
        word.value() == bytes::be_value(word.0@.subrange(0, 4)) * pow2(224) + bytes::be_value(
            word.0@.subrange(4, 8),
        ) * pow2(192) + bytes::be_value(word.0@.subrange(8, 24)) * pow2(64) + bytes::be_value(
            word.0@.subrange(24, 28),
        ) * pow2(32) + bytes::be_value(word.0@.subrange(28, 32)),
{
    let s = word.0@;
    let v = word.value();
    let a = bytes::be_value(s.subrange(0, 4));
    let b = bytes::be_value(s.subrange(4, 8));
    let c = bytes::be_value(s.subrange(8, 24));
    let d = bytes::be_value(s.subrange(24, 28));
    let e = bytes::be_value(s.subrange(28, 32));
    lemma2_to64();
    lemma2_to64_rest();
    assert forall|n: nat| pow2(n) > 0 by {
        lemma_pow2_pos(n);
    }
    // the tick
    bytes::lemma_be_value_split(s, 4);
    bytes::lemma_be_value_bound(s.skip(4));
    bytes::lemma_be_value_bound(s.take(4));
    assert(s.take(4) =~= s.subrange(0, 4));
    let tail4 = bytes::be_value(s.skip(4));
    assert(v == a * pow2(224) + tail4);
    lemma_fundamental_div_mod_converse(v as int, pow2(224) as int, a as int, tail4 as int);
    // the nonce
    bytes::lemma_be_value_split(s, 28);
    bytes::lemma_be_value_bound(s.skip(28));
    assert(s.skip(28) =~= s.subrange(28, 32));
    let head28 = bytes::be_value(s.take(28));
    assert(v == head28 * pow2(32) + e);
    lemma_fundamental_div_mod_converse(v as int, pow2(32) as int, head28 as int, e as int);
    // the quantity
    bytes::lemma_be_value_split(s, 24);
    bytes::lemma_be_value_bound(s.skip(24));
    let (head24, tail24) = (bytes::be_value(s.take(24)), bytes::be_value(s.skip(24)));
    assert(v == head24 * pow2(64) + tail24);
    lemma_fundamental_div_mod_converse(v as int, pow2(64) as int, head24 as int, tail24 as int);
    bytes::lemma_be_value_split(s.take(24), 8);
    assert(s.take(24).skip(8) =~= s.subrange(8, 24));
    assert(s.take(24).take(8) =~= s.take(8));
    bytes::lemma_be_value_bound(s.subrange(8, 24));
    let head8 = bytes::be_value(s.take(8));
    assert(head24 == head8 * pow2(128) + c);
    lemma_fundamental_div_mod_converse(head24 as int, pow2(128) as int, head8 as int, c as int);
    // all of it
    bytes::lemma_be_value_split(s.take(8), 4);
    assert(s.take(8).take(4) =~= s.subrange(0, 4));
    assert(s.take(8).skip(4) =~= s.subrange(4, 8));
    assert(head8 == a * pow2(32) + b);
    bytes::lemma_be_value_split(s.skip(24), 4);
    assert(s.skip(24).take(4) =~= s.subrange(24, 28));
    assert(s.skip(24).skip(4) =~= s.subrange(28, 32));
    assert(tail24 == d * pow2(32) + e);
    lemma_pow2_adds(128, 64);
    lemma_pow2_adds(32, 192);
    let (p32, p64, p128, p192, p224) = (pow2(32), pow2(64), pow2(128), pow2(192), pow2(224));
    assert(((a * p32 + b) * p128 + c) * p64 == a * p224 + b * p192 + c * p64) by (nonlinear_arith)
        requires
            p192 == p128 * p64,
            p224 == p32 * p192,
    ;
}

/// Packs an order into one word. Every tick, quantity and nonce can be packed.
pub fn pack(tick: i32, quantity: u128, nonce: u32) -> (packed: Result<B256, PackError>)
    ensures
        packed is Ok,
        packed->Ok_0.value() == packed_value(tick, quantity, nonce),
{
    let bits: u32 = if tick >= 0 {
        tick as u32
    } else {
        (tick as i64 + 0x1_0000_0000) as u32
    };
    let mut word: [u8; 32] = [0u8; 32];
    proof {
        lemma2_to64();
        bytes::lemma_two_to_128();
    }
    bytes::write_be(&mut word, 0, 4, bits as u128);
    let ghost first = word@;
    bytes::write_be(&mut word, 8, 16, quantity);
    let ghost second = word@;
    bytes::write_be(&mut word, 28, 4, nonce as u128);
    proof {
        assert(word@.subrange(0, 4) =~= first.subrange(0, 4));
        assert(word@.subrange(8, 24) =~= second.subrange(8, 24));
        bytes::lemma_be_value_zeros(word@.subrange(4, 8));
        bytes::lemma_be_value_zeros(word@.subrange(24, 28));
        lemma_word_fields(B256(word));
        assert(0 * pow2(192) == 0 && 0 * pow2(32) == 0) by (nonlinear_arith);
    }
    Ok(B256(word))
}

/// The order that a word carries.
pub fn unpack(packed: &B256) -> (order: Order)
    ensures
        order == order_of(*packed),
{
    let bits: u32 = bytes::read_be(&packed.0, 0, 4) as u32;
    let quantity: u128 = bytes::read_be(&packed.0, 8, 16);
    let nonce: u32 = bytes::read_be(&packed.0, 28, 4) as u32;
    proof {
        lemma_word_fields(*packed);
        lemma2_to64();
        bytes::lemma_be_value_bound(packed.0@.subrange(0, 4));
        bytes::lemma_be_value_bound(packed.0@.subrange(28, 32));
    }
    let tick: i32 = if bits >= 0x8000_0000 {
        (bits as i64 - 0x1_0000_0000) as i32
    } else {
        bits as i32
    };
    Order { tick, quantity, nonce }
}

/// Unpacking a packed order gives the order back.
pub proof fn law_unpack_inverts_pack(tick: i32, quantity: u128, nonce: u32, word: B256)
    requires
        word.value() == packed_value(tick, quantity, nonce),
    ensures
        order_of(word) == (Order { tick, quantity, nonce }),
{
    lemma_packed_value_fields(tick, quantity, nonce);
}

/// The fields of a packed order, read back from its value.
proof fn lemma_packed_value_fields(tick: i32, quantity: u128, nonce: u32)
    ensures
        order_of_value(packed_value(tick, quantity, nonce)) == (Order { tick, quantity, nonce }),
{
    lemma2_to64();
    bytes::lemma_two_to_128();
    lemma_pow2_adds(160, 64);
    lemma_pow2_adds(32, 32);
    lemma_pow2_adds(32, 128);
    assert forall|n: nat| pow2(n) > 0 by {
        lemma_pow2_pos(n);
    }
    let v = packed_value(tick, quantity, nonce) as int;
    let (t, q, n) = (tick_bits(tick) as int, quantity as int, nonce as int);
    let (p32, p64, p128, p160, p224) = (
        pow2(32) as int,
        pow2(64) as int,
        pow2(128) as int,
        pow2(160) as int,
        pow2(224) as int,
    );
    assert(q * p64 + n < p224) by (nonlinear_arith)
        requires
            0 <= q < p128,
            0 <= n < p32,
            p64 == p32 * p32,
            p160 == p32 * p128,
            p224 == p160 * p64,
            p32 == 0x1_0000_0000,
            p128 > 0,
    ;
    lemma_fundamental_div_mod_converse(v, p224, t, q * p64 + n);
    assert(v == (t * p160 + q) * p64 + n) by (nonlinear_arith)
        requires
            v == t * p224 + q * p64 + n,
            p224 == p160 * p64,
    ;
    assert(p64 > p32) by (nonlinear_arith)
        requires
            p64 == p32 * p32,
            p32 == 0x1_0000_0000,
    ;
    lemma_fundamental_div_mod_converse(v, p64, t * p160 + q, n);
    assert(t * p160 + q == (t * p32) * p128 + q) by (nonlinear_arith)
        requires
            p160 == p32 * p128,
    ;
    lemma_fundamental_div_mod_converse(t * p160 + q, p128, t * p32, q);
    assert(v == ((t * p160 + q) * p32) * p32 + n) by (nonlinear_arith)
        requires
            v == (t * p160 + q) * p64 + n,
            p64 == p32 * p32,
    ;
    lemma_fundamental_div_mod_converse(v, p32, (t * p160 + q) * p32, n);
}

/// The bits that `unpack` does not read: the upper 32 bits of the quantity and
/// the reserved field.
pub open spec fn spare_bits_clear(word: B256) -> bool {
    forall|i: int| 4 <= i < 8 || 24 <= i < 28 ==> word.0@[i] == 0
}

/// Packing what was unpacked gives the word back, so long as the bits that no
/// field of an order holds are clear.
pub proof fn law_pack_inverts_unpack(word: B256, again: B256)
    requires
        spare_bits_clear(word),
        again.value() == packed_value(
            order_of(word).tick,
            order_of(word).quantity,
            order_of(word).nonce,
        ),
    ensures
        again == word,
{
    lemma_word_fields(word);
    lemma2_to64();
    bytes::lemma_two_to_128();
    bytes::lemma_be_value_bound(word.0@.subrange(0, 4));
    bytes::lemma_be_value_bound(word.0@.subrange(8, 24));
    bytes::lemma_be_value_bound(word.0@.subrange(28, 32));
    bytes::lemma_be_value_zeros(word.0@.subrange(4, 8));
    bytes::lemma_be_value_zeros(word.0@.subrange(24, 28));
    assert(0 * pow2(192) == 0 && 0 * pow2(32) == 0) by (nonlinear_arith);
    bytes::lemma_be_value_injective(word.0@, again.0@);
    assert(again.0 =~= word.0);
}

/// Orders that differ pack into words that differ.
pub proof fn law_pack_is_injective(a: Order, b: Order)
    requires
        packed_value(a.tick, a.quantity, a.nonce) == packed_value(b.tick, b.quantity, b.nonce),
    ensures
        a == b,
{
    lemma_packed_value_fields(a.tick, a.quantity, a.nonce);
    lemma_packed_value_fields(b.tick, b.quantity, b.nonce);
}

/// What stands where in a packed order: in the top 32 bits the tick modulo
/// `2^32`, below it 160 bits of quantity, then 32 bits that are clear, then the
/// nonce.
pub proof fn law_packed_layout(tick: i32, quantity: u128, nonce: u32)
    ensures
        packed_value(tick, quantity, nonce) / pow2(224) == (tick as int) % 0x1_0000_0000,
        (packed_value(tick, quantity, nonce) / pow2(64)) % pow2(160) == quantity,
        (packed_value(tick, quantity, nonce) / pow2(32)) % pow2(32) == 0,
        packed_value(tick, quantity, nonce) % pow2(32) == nonce,
        packed_value(tick, quantity, nonce) < pow2(256),
{
    lemma2_to64();
    bytes::lemma_two_to_128();
    lemma_pow2_adds(160, 64);
    lemma_pow2_adds(32, 32);
    lemma_pow2_adds(32, 128);
    lemma_pow2_adds(32, 224);
    assert forall|n: nat| pow2(n) > 0 by {
        lemma_pow2_pos(n);
    }
    let v = packed_value(tick, quantity, nonce) as int;
    let (t, q, n) = (tick_bits(tick) as int, quantity as int, nonce as int);
    let (p32, p64, p128, p160, p224, p256) = (
        pow2(32) as int,
        pow2(64) as int,
        pow2(128) as int,
        pow2(160) as int,
        pow2(224) as int,
        pow2(256) as int,
    );
    assert(t == (tick as int) % 0x1_0000_0000) by {
        if tick >= 0 {
            lemma_fundamental_div_mod_converse(tick as int, 0x1_0000_0000, 0, t);
        } else {
            lemma_fundamental_div_mod_converse(tick as int, 0x1_0000_0000, -1, t);
        }
    }
    assert(q * p64 + n < p224) by (nonlinear_arith)
        requires
            0 <= q < p128,
            0 <= n < p32,
            p64 == p32 * p32,
            p160 == p32 * p128,
            p224 == p160 * p64,
            p32 == 0x1_0000_0000,
            p128 > 0,
    ;
    lemma_fundamental_div_mod_converse(v, p224, t, q * p64 + n);
    assert(v < p256) by (nonlinear_arith)
        requires
            v == t * p224 + (q * p64 + n),
            q * p64 + n < p224,
            0 <= t < p32,
            p256 == p32 * p224,
            p224 > 0,
    ;
    assert(v == (t * p160 + q) * p64 + n) by (nonlinear_arith)
        requires
            v == t * p224 + q * p64 + n,
            p224 == p160 * p64,
    ;
    assert(p64 > p32 && p160 > p128) by (nonlinear_arith)
        requires
            p64 == p32 * p32,
            p160 == p32 * p128,
            p32 == 0x1_0000_0000,
            p128 > 0,
    ;
    lemma_fundamental_div_mod_converse(v, p64, t * p160 + q, n);
    lemma_fundamental_div_mod_converse(t * p160 + q, p160, t, q);
    assert(v == ((t * p160 + q) * p32) * p32 + n) by (nonlinear_arith)
        requires
            v == (t * p160 + q) * p64 + n,
            p64 == p32 * p32,
    ;
    lemma_fundamental_div_mod_converse(v, p32, (t * p160 + q) * p32, n);
    lemma_fundamental_div_mod_converse((t * p160 + q) * p32, p32, t * p160 + q, 0);
}

/// What is read from where in any word: the tick is the signed number that equals
/// the top 32 bits modulo `2^32`, the quantity is 128 bits from bit 64 on, the
/// nonce the low 32 bits.
pub proof fn law_read_layout(word: B256)
    ensures
        (order_of(word).tick as int) % 0x1_0000_0000 == word.value() / pow2(224),
        order_of(word).quantity == (word.value() / pow2(64)) % pow2(128),
        order_of(word).nonce == word.value() % pow2(32),
{
    lemma_word_fields(word);
    lemma2_to64();
    bytes::lemma_two_to_128();
    bytes::lemma_be_value_bound(word.0@.subrange(8, 24));
    bytes::lemma_be_value_bound(word.0@.subrange(28, 32));
    let top = (word.value() / pow2(224)) as int;
    let tick = order_of(word).tick as int;
    if top < 0x8000_0000 {
        lemma_fundamental_div_mod_converse(tick, 0x1_0000_0000, 0, top);
    } else {
        lemma_fundamental_div_mod_converse(tick, 0x1_0000_0000, -1, top);
    }
}

} // verus!
