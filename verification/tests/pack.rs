use num::BigUint;
use std::str::FromStr;
use zklink_sdk::tx_type::format_units;
use zklink_sdk::tx_type::pack::{
    is_fee_amount_packable, is_packable, is_token_amount_packable, pack, pack_fee_amount,
    pack_token_amount, unpack, unpack_fee_amount, unpack_token_amount,
};

fn big(s: &str) -> BigUint {
    BigUint::from_str(s).unwrap()
}

#[test]
fn zero_packs_to_zero_bytes() {
    assert_eq!(pack_token_amount(&BigUint::from(0u8)), vec![0u8; 5]);
    assert_eq!(pack_fee_amount(&BigUint::from(0u8)), vec![0u8; 2]);
    assert!(is_token_amount_packable(&BigUint::from(0u8)));
}

#[test]
fn packs_mantissa_then_exponent() {
    // 2047 = mantissa 2047, exponent 0
    assert_eq!(pack_fee_amount(&BigUint::from(2047u32)), vec![0xff, 0xe0]);
    // 1000 = mantissa 1000, exponent 0 -> 1000 << 5
    assert_eq!(pack_fee_amount(&BigUint::from(1000u32)), vec![0x7d, 0x00]);
    // 20470 needs exponent 1: mantissa 2047
    assert_eq!(pack_fee_amount(&BigUint::from(20470u32)), vec![0xff, 0xe1]);
    // 10^18 in a token amount: mantissa 10^10, exponent 8
    assert_eq!(pack_token_amount(&big("1000000000000000000")), vec![0x4a, 0x81, 0x7c, 0x80, 0x08]);
}

#[test]
fn packing_rounds_down_to_the_nearest() {
    // 2048 is not a mantissa; 2047 * 10^0 is nearer than 204 * 10^1.
    let packed = pack_fee_amount(&BigUint::from(2048u32));
    assert_eq!(packed, vec![0xff, 0xe0]);
    assert_eq!(unpack_fee_amount(&packed), Some(BigUint::from(2047u32)));
    // 20479: 2047 * 10 is nearer than 2047 * 1.
    let packed = pack_fee_amount(&BigUint::from(20479u32));
    assert_eq!(unpack_fee_amount(&packed), Some(BigUint::from(20470u32)));
    assert!(!is_fee_amount_packable(&BigUint::from(2048u32)));
    assert!(!is_fee_amount_packable(&BigUint::from(20479u32)));
}

#[test]
fn packable_amounts_round_trip() {
    for s in ["1", "2047", "20470", "1000000000000", "34359738367", "343597383670000000000"] {
        let amount = big(s);
        if is_fee_amount_packable(&amount) {
            assert_eq!(unpack_fee_amount(&pack_fee_amount(&amount)), Some(amount.clone()));
        }
        assert!(is_token_amount_packable(&amount));
        assert_eq!(unpack_token_amount(&pack_token_amount(&amount)), Some(amount));
    }
}

#[test]
fn boundary_of_the_fee_layout() {
    let max = BigUint::from(2047u32) * BigUint::from(10u8).pow(31);
    assert!(is_fee_amount_packable(&max));
    assert_eq!(pack_fee_amount(&max), vec![0xff, 0xff]);
    assert_eq!(unpack_fee_amount(&[0xff, 0xff]), Some(max.clone()));
    assert!(!is_fee_amount_packable(&(max + 1u8)));
}

#[test]
fn boundary_of_the_token_layout() {
    let max = BigUint::from(34359738367u64) * BigUint::from(10u8).pow(31);
    assert!(max > BigUint::from(u128::MAX));
    assert!(is_token_amount_packable(&max));
    assert_eq!(pack_token_amount(&max), vec![0xff; 5]);
    assert_eq!(unpack_token_amount(&[0xff; 5]), Some(max.clone()));
    assert!(!is_token_amount_packable(&(max + 1u8)));
}

#[test]
fn unpack_refuses_other_lengths() {
    assert_eq!(unpack_token_amount(&[0u8; 4]), None);
    assert_eq!(unpack_token_amount(&[0u8; 6]), None);
    assert_eq!(unpack_fee_amount(&[0u8; 1]), None);
    assert_eq!(unpack_fee_amount(&[0u8; 3]), None);
    assert_eq!(unpack(&[0u8; 2], 5, 11), Some(BigUint::from(0u8)));
}

#[test]
fn other_layouts() {
    // 8 bits of exponent, 8 of mantissa
    assert!(is_packable(&BigUint::from(255u32), 8, 8));
    assert!(!is_packable(&BigUint::from(256u32), 8, 8));
    assert!(is_packable(&BigUint::from(2550u32), 8, 8));
    assert_eq!(pack(&BigUint::from(2550u32), 8, 8), vec![255, 1]);
}

#[test]
fn amounts_in_whole_units() {
    assert_eq!(format_units(&BigUint::from(1500u32), 3), "1.5");
    assert_eq!(format_units(&BigUint::from(1000u32), 3), "1.0");
    assert_eq!(format_units(&BigUint::from(5u32), 3), "0.005");
    assert_eq!(format_units(&BigUint::from(120u32), 0), "120.0");
    assert_eq!(format_units(&BigUint::from(0u32), 0), "0.0");
    assert_eq!(format_units(&BigUint::from(0u32), 5), "0.0");
    assert_eq!(format_units(&BigUint::from(100u32), 2), "1.0");
    assert_eq!(format_units(&BigUint::from(101u32), 2), "1.01");
    assert_eq!(format_units(&BigUint::from(110u32), 2), "1.1");
    assert_eq!(
        format_units(&big("123456789012345678901234567890"), 18),
        "123456789012.34567890123456789"
    );
    assert_eq!(format_units(&BigUint::from(7u32), 255).len(), 2 + 255);
}

#[test]
fn largest_amounts() {
    assert_eq!(
        zklink_sdk::tx_type::pack::largest_fee_amount(),
        BigUint::from(2047u32) * BigUint::from(10u8).pow(31)
    );
    assert_eq!(
        zklink_sdk::tx_type::pack::largest_token_amount(),
        BigUint::from(34359738367u64) * BigUint::from(10u8).pow(31)
    );
    assert_eq!(
        zklink_sdk::tx_type::pack::largest_amount(8, 8),
        BigUint::from(255u32) * BigUint::from(10u8).pow(255)
    );
}
