use deepstate_mm::contracts::{compute_pool_id, pool_id_preimage, sorted_pair, DEEP, NVDA, REWARDER, ROUTER, USDG};
use deepstate_mm::words::{Address, B256};

fn unhex(text: &str) -> Vec<u8> {
    (0..text.len() / 2).map(|i| u8::from_str_radix(&text[2 * i..2 * i + 2], 16).unwrap()).collect()
}

#[test]
fn addresses_are_the_deployed_ones() {
    assert_eq!(ROUTER.to_vec(), unhex("6cf19308c22fc82ea620fa0b3e94948d20f27b96"));
    assert_eq!(REWARDER.to_vec(), unhex("e85adbc03a6b52a2c9894c1bb525ec883ea156d7"));
    assert_eq!(USDG.to_vec(), unhex("5fc5360d0400a0fd4f2af552add042d716f1d168"));
    assert_eq!(NVDA.to_vec(), unhex("d0601ce157db5bdc3162bbac2a2c8af5320d9eec"));
    assert_eq!(DEEP.to_vec(), unhex("1da24f6bb623b9d1afeae3f3146659a2662d6d27"));
}

#[test]
fn pair_is_in_address_order() {
    let (token0, token1) = sorted_pair();
    assert_eq!(token0, Address(USDG));
    assert_eq!(token1, Address(NVDA));
    assert!(token0.0 < token1.0);
}

#[test]
fn pool_id_is_the_keccak_digest_of_the_padded_pair() {
    let (token0, token1) = sorted_pair();
    let id = compute_pool_id(token0, token1);
    assert_eq!(
        id.0.to_vec(),
        unhex("42819cadfbb25aab80543236e280fba4e61aa61e0b5b777541de54ae69da35e4")
    );
    let preimage = pool_id_preimage(token0, token1);
    assert_eq!(id.0, alloy::primitives::keccak256(preimage).0);
    assert_eq!(preimage[..12], [0u8; 12]);
    assert_eq!(preimage[12..32], USDG);
    assert_eq!(preimage[32..44], [0u8; 12]);
    assert_eq!(preimage[44..], NVDA);
}

#[test]
fn pool_id_depends_on_the_order_of_the_pair() {
    let (token0, token1) = sorted_pair();
    assert_ne!(compute_pool_id(token0, token1), compute_pool_id(token1, token0));
    assert_ne!(pool_id_preimage(token0, token1), pool_id_preimage(token1, token0));
}

#[test]
fn words_compare_as_numbers() {
    let small = B256::from_u128(255);
    let large = B256::from_u128(256);
    assert!(large.at_least(&small));
    assert!(small.at_least(&small));
    assert!(!small.at_least(&large));
    assert!(B256::max().at_least(&B256::from_u128(u128::MAX)));
    assert!(!B256::from_u128(u128::MAX).at_least(&B256::max()));
    assert!(B256::zero().is_empty());
    assert!(!small.is_empty());
    assert_eq!(B256::max().0, [0xff; 32]);
    assert_eq!(large.0[30], 1);
    assert_eq!(B256::from_u128(0), B256::zero());
}
