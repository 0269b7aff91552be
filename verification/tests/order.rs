use deepstate_mm::order::{pack, unpack, Order};
use deepstate_mm::words::B256;

#[test]
fn test_pack_unpack_roundtrip() {
    let o = Order { tick: 12345, quantity: 1_000_000, nonce: 7 };
    let packed = pack(o.tick, o.quantity, o.nonce).unwrap();
    let back = unpack(&packed);
    assert_eq!(o, back);
}

#[test]
fn test_negative_tick() {
    let o = Order { tick: -54321, quantity: 500, nonce: 0 };
    let packed = pack(o.tick, o.quantity, o.nonce).unwrap();
    let back = unpack(&packed);
    assert_eq!(o, back);
}

#[test]
fn packed_word_has_the_layout() {
    let packed = pack(-2, 0x0102_0304_0506_0708_090a_0b0c_0d0e_0f10, 0xa1b2_c3d4).unwrap();
    let mut expected = [0u8; 32];
    expected[..4].copy_from_slice(&[0xff, 0xff, 0xff, 0xfe]);
    for i in 0..16 {
        expected[8 + i] = i as u8 + 1;
    }
    expected[28..].copy_from_slice(&[0xa1, 0xb2, 0xc3, 0xd4]);
    assert_eq!(packed.0, expected);
}

#[test]
fn extreme_orders_survive_packing() {
    for tick in [i32::MIN, -1, 0, 1, i32::MAX] {
        for quantity in [0, 1, u128::MAX] {
            for nonce in [0, u32::MAX] {
                let packed = pack(tick, quantity, nonce).unwrap();
                assert_eq!(unpack(&packed), Order { tick, quantity, nonce });
            }
        }
    }
}

#[test]
fn unpack_ignores_spare_bits() {
    let mut word = pack(17, 23, 42).unwrap();
    for i in [4, 5, 6, 7, 24, 25, 26, 27] {
        word.0[i] = 0xff;
    }
    assert_eq!(unpack(&word), Order { tick: 17, quantity: 23, nonce: 42 });
}

#[test]
fn packing_again_restores_a_word_without_spare_bits() {
    let mut word = B256([0x5a; 32]);
    for i in [4, 5, 6, 7, 24, 25, 26, 27] {
        word.0[i] = 0;
    }
    let order = unpack(&word);
    assert_eq!(pack(order.tick, order.quantity, order.nonce).unwrap(), word);
}

#[test]
fn orders_that_differ_pack_differently() {
    assert_ne!(pack(1, 2, 3).unwrap(), pack(1, 2, 4).unwrap());
    assert_ne!(pack(1, 2, 3).unwrap(), pack(1, 3, 3).unwrap());
    assert_ne!(pack(1, 2, 3).unwrap(), pack(2, 2, 3).unwrap());
}
