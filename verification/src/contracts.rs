//! The contracts of the protocol: where they are, and how a pool is named.
use crate::bytes;
use crate::words::{Address, B256};
use vstd::prelude::*;

verus! {

/// The order book engine.
pub const ROUTER: [u8; 20] = [
    0x6c, 0xf1, 0x93, 0x08, 0xc2, 0x2f, 0xc8, 0x2e, 0xa6, 0x20,
    0xfa, 0x0b, 0x3e, 0x94, 0x94, 0x8d, 0x20, 0xf2, 0x7b, 0x96,
];

/// The contract that pays the market making reward.
pub const REWARDER: [u8; 20] = [
    0xe8, 0x5a, 0xdb, 0xc0, 0x3a, 0x6b, 0x52, 0xa2, 0xc9, 0x89,
    0x4c, 0x1b, 0xb5, 0x25, 0xec, 0x88, 0x3e, 0xa1, 0x56, 0xd7,
];

/// USDG, the quote token, with 6 decimals.
pub const USDG: [u8; 20] = [
    0x5f, 0xc5, 0x36, 0x0d, 0x04, 0x00, 0xa0, 0xfd, 0x4f, 0x2a,
    0xf5, 0x52, 0xad, 0xd0, 0x42, 0xd7, 0x16, 0xf1, 0xd1, 0x68,
];

/// NVDA, the base token, with 18 decimals.
pub const NVDA: [u8; 20] = [
    0xd0, 0x60, 0x1c, 0xe1, 0x57, 0xdb, 0x5b, 0xdc, 0x31, 0x62,
    0xbb, 0xac, 0x2a, 0x2c, 0x8a, 0xf5, 0x32, 0x0d, 0x9e, 0xec,
];

/// DEEP, the reward token.
pub const DEEP: [u8; 20] = [
    0x1d, 0xa2, 0x4f, 0x6b, 0xb6, 0x23, 0xb9, 0xd1, 0xaf, 0xea,
    0xe3, 0xf3, 0x14, 0x66, 0x59, 0xa2, 0x66, 0x2d, 0x6d, 0x27,
];

/// The two tokens of the pool in address order, which is USDG before NVDA.
pub fn sorted_pair() -> (pair: (Address, Address))
    ensures
        pair.0.0@ == USDG@,
        pair.1.0@ == NVDA@,
        bytes::be_value(pair.0.0@) < bytes::be_value(pair.1.0@),
{
    proof {
        lemma_usdg_before_nvda();
    }
    (Address(USDG), Address(NVDA))
}

/// The digest that `alloy::primitives::keccak256` gives of a byte string.
pub uninterp spec fn keccak256_digest(data: Seq<u8>) -> Seq<u8>;

/// Calls `alloy::primitives::keccak256`. The claim is that its 32 bytes are a
/// function of the bytes hashed and of nothing else; which bytes they are is
/// not said.
#[verifier::external_body]
fn keccak256(data: &[u8]) -> (digest: [u8; 32])
    ensures
        digest@ == keccak256_digest(data@),
{
    alloy::primitives::keccak256(data).0
}

/// An address padded on the left with zeros to 32 bytes.
pub open spec fn left_padded(address: Address) -> Seq<u8> {
    Seq::new(12, |i: int| 0u8) + address.0@
}

/// The bytes whose digest names the pool of two tokens: both addresses, each
/// padded to 32 bytes.
pub fn pool_id_preimage(token0: Address, token1: Address) -> (preimage: [u8; 64])
    ensures
        preimage@ == left_padded(token0) + left_padded(token1),
{
    let mut preimage: [u8; 64] = [0u8; 64];
    let mut i: usize = 0;
    while i < 20
        invariant
            i <= 20,
            forall|j: int| 0 <= j < 64 ==> #[trigger] preimage@[j] == (if 12 <= j < 12 + i {
                token0.0@[j - 12]
            } else if 44 <= j < 44 + i {
                token1.0@[j - 44]
            } else {
                0
            }),
        decreases 20 - i,
    {
        preimage[12 + i] = token0.0[i];
        preimage[44 + i] = token1.0[i];
        i = i + 1;
    }
    assert(preimage@ =~= left_padded(token0) + left_padded(token1));
    preimage
}

/// The name of the pool of two tokens: the Keccak-256 digest of both addresses.
pub fn compute_pool_id(token0: Address, token1: Address) -> (id: B256)
    ensures
        id.0@ == keccak256_digest(left_padded(token0) + left_padded(token1)),
{
    let preimage = pool_id_preimage(token0, token1);
    B256(keccak256(&preimage))
}

/// Different pairs of tokens are hashed from different bytes.
pub proof fn law_pool_preimage_is_injective(a: (Address, Address), b: (Address, Address))
    requires
        left_padded(a.0) + left_padded(a.1) == left_padded(b.0) + left_padded(b.1),
    ensures
        a == b,
{
    let (s, t) = (left_padded(a.0) + left_padded(a.1), left_padded(b.0) + left_padded(b.1));
    assert forall|i: int| 0 <= i < 20 implies a.0.0@[i] == b.0.0@[i] && a.1.0@[i] == b.1.0@[i] by {
        assert(s[12 + i] == a.0.0@[i]);
        assert(t[12 + i] == b.0.0@[i]);
        assert(s[44 + i] == a.1.0@[i]);
        assert(t[44 + i] == b.1.0@[i]);
    }
    assert(a.0.0 =~= b.0.0);
    assert(a.1.0 =~= b.1.0);
}

/// USDG has the smaller address.
proof fn lemma_usdg_before_nvda()
    ensures
        bytes::be_value(USDG@) < bytes::be_value(NVDA@),
{
    assert(USDG@.take(0) =~= NVDA@.take(0));
    bytes::lemma_be_value_order(NVDA@, USDG@, 0);
}

/// The bytes that name a pool: the first token at 12, the second at 44, zeros
/// elsewhere.
pub proof fn law_pool_preimage_layout(token0: Address, token1: Address, i: int)
    requires
        0 <= i < 64,
    ensures
        (left_padded(token0) + left_padded(token1)).len() == 64,
        (left_padded(token0) + left_padded(token1))[i] == (if 12 <= i < 32 {
            token0.0@[i - 12]
        } else if 44 <= i {
            token1.0@[i - 44]
        } else {
            0
        }),
{
}

} // verus!
