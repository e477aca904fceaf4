use std::str::FromStr;
use zklink_sdk::basic_types::error::TypeError;
use zklink_sdk::basic_types::h256::H256;
use zklink_sdk::basic_types::zklink_address::ZkLinkAddress;
use zklink_sdk::basic_types::{
    AccountId, BigUint, BlockNumber, ChainId, EthBlockId, Nonce, PairId, PriorityOpId, SlotId,
    SubAccountId, TimeStamp, TokenId,
};
use zklink_sdk::bytes::{from_be_bytes, pad_front, to_be_bytes};

#[test]
fn test_convert() {
    let h = H256::zero();
    let s = H256::from_custom(h);
    println!("{s}");
    let h2 = H256::into_custom(s).unwrap();
    println!("{h2:?}");

    // test BigUnit
    let b = BigUint::default();
    let s = b.to_string();
    let b2 = BigUint::from_str("1234567890987654321").unwrap();
    println!("big uint: {:?}", s);
    println!("big uint: {:?}", b2.to_string());
}

#[test]
fn h256_string_round_trip() {
    let zero = H256::zero();
    let s = H256::from_custom(zero);
    assert_eq!(s, format!("0x{}", "0".repeat(64)));
    assert_eq!(H256::into_custom(s), Ok(zero));
    let h = H256::from_slice(&[0x5au8; 32]).unwrap();
    assert_eq!(H256::into_custom(H256::from_custom(h)), Ok(h));
    assert_eq!(H256::into_custom("0x1234".to_string()), Err(TypeError::SizeMismatch));
    assert_eq!(H256::into_custom("5a".repeat(32)), Err(TypeError::ParseError));
    assert_eq!(H256::into_custom("0xgg".to_string()), Err(TypeError::ParseError));
    assert!(H256::from_slice(&[0u8; 31]).is_none());
}

#[test]
fn identifiers_refuse_what_their_field_cannot_hold() {
    assert_eq!(SlotId::new(65535), Ok(SlotId(65535)));
    assert_eq!(SlotId::new(65536), Err(TypeError::RangeError));
    assert_eq!(TokenId::new(65535), Ok(TokenId(65535)));
    assert_eq!(TokenId::new(65536), Err(TypeError::RangeError));
    assert_eq!(PairId::new(65536), Err(TypeError::RangeError));
    assert_eq!(SubAccountId::new(255), Ok(SubAccountId(255)));
    assert_eq!(SubAccountId::new(256), Err(TypeError::RangeError));
    assert_eq!(ChainId::new(256), Err(TypeError::RangeError));
    assert_eq!(AccountId::new(u32::MAX as u64), Ok(AccountId(u32::MAX)));
    assert_eq!(AccountId::new(u32::MAX as u64 + 1), Err(TypeError::RangeError));
    assert_eq!(Nonce::new(1 << 32), Err(TypeError::RangeError));
    assert_eq!(BlockNumber::new(1 << 32), Err(TypeError::RangeError));
    assert_eq!(TimeStamp::new(1 << 32), Err(TypeError::RangeError));
    assert_eq!(PriorityOpId::new(u64::MAX), Ok(PriorityOpId(u64::MAX)));
    assert_eq!(EthBlockId::new(u64::MAX), Ok(EthBlockId(u64::MAX)));
    assert!(SlotId(65535).is_valid());
    assert!(!SlotId(65536).is_valid());
}

#[test]
fn identifiers_are_written_big_endian_at_their_width() {
    assert_eq!(AccountId(0x01020304).to_be_bytes(), vec![1, 2, 3, 4]);
    assert_eq!(SubAccountId(7).to_be_bytes(), vec![7]);
    assert_eq!(SlotId(0x0102).to_be_bytes(), vec![1, 2]);
    assert_eq!(SlotId(0x0a0b0c0d).to_be_bytes(), vec![0x0c, 0x0d]);
    assert_eq!(TokenId(0x1234).to_be_bytes(), vec![0x12, 0x34]);
    assert_eq!(Nonce(0xdeadbeef).to_be_bytes(), vec![0xde, 0xad, 0xbe, 0xef]);
    assert_eq!(PriorityOpId(1).to_be_bytes(), vec![0, 0, 0, 0, 0, 0, 0, 1]);
    assert_eq!(ChainId(9).to_be_bytes(), vec![9]);
}

#[test]
fn big_endian_helpers() {
    assert_eq!(to_be_bytes(0x0102, 4), vec![0, 0, 1, 2]);
    assert_eq!(to_be_bytes(0x010203, 2), vec![2, 3]);
    assert_eq!(to_be_bytes(5, 0), Vec::<u8>::new());
    assert_eq!(to_be_bytes(u128::MAX, 16), vec![0xff; 16]);
    assert_eq!(from_be_bytes(&[1, 2, 3]), 0x010203);
    assert_eq!(from_be_bytes(&[]), 0);
    assert_eq!(from_be_bytes(&[0xff; 16]), u128::MAX);
    assert_eq!(pad_front(&[1, 2], 5), vec![0, 0, 0, 1, 2]);
    assert_eq!(pad_front(&[1, 2], 2), vec![1, 2]);
    assert_eq!(pad_front(&[], 3), vec![0, 0, 0]);
}

#[test]
fn addresses_have_20_or_32_bytes() {
    let evm = ZkLinkAddress::from_slice(&[0xaa; 20]).unwrap();
    assert_eq!(evm.as_bytes(), &[0xaa; 20][..]);
    assert_eq!(evm.to_string(), format!("0x{}", "aa".repeat(20)));
    assert_eq!(ZkLinkAddress::from_str(&evm.to_string()), Ok(evm.clone()));
    let long = ZkLinkAddress::from_slice(&[1; 32]).unwrap();
    assert_eq!(ZkLinkAddress::from_str(&long.to_string()), Ok(long));
    assert_eq!(ZkLinkAddress::from_slice(&[0; 21]), Err(TypeError::SizeMismatch));
    assert_eq!(ZkLinkAddress::from_slice(&[]), Err(TypeError::SizeMismatch));
    assert_eq!(ZkLinkAddress::from_str("0x00"), Err(TypeError::SizeMismatch));
    assert_eq!(ZkLinkAddress::from_str("00"), Err(TypeError::ParseError));
}
