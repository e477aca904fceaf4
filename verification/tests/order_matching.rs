use num::BigUint;
use std::str::FromStr;
use zklink_sdk::basic_types::{AccountId, Nonce, SlotId, SubAccountId, TokenId};
use zklink_sdk::crypto::pk_signer::ZkLinkSigner;
use zklink_sdk::crypto::zksync_crypto_init;
use zklink_sdk::tx_type::order_matching::{orders_block, Order, OrderMatching};
use zklink_sdk::tx_type::validator::{Field, Reason, ValidationError};

fn sample_order() -> Order {
    Order::new(
        AccountId(1),
        SubAccountId(0),
        SlotId(5),
        Nonce(0),
        TokenId(1),
        TokenId(2),
        BigUint::from_str("1000000000000000000").unwrap(),
        BigUint::from_str("50000").unwrap(),
        false,
        5,
        10,
    )
}

#[test]
fn order_end_to_end() {
    let params = zksync_crypto_init();
    let signer = ZkLinkSigner::new_from_bytes(&[
        0x05, 0x52, 0xa6, 0x9d, 0x72, 0xd1, 0x54, 0x6b, 0x04, 0xe0, 0x4f, 0x9f, 0x30, 0xd5, 0x0e,
        0x5c, 0xa8, 0x74, 0x3b, 0xd3, 0x3a, 0x7a, 0x94, 0xef, 0x6c, 0x4c, 0x4a, 0x5d, 0x1d, 0x0a,
        0x02, 0x75,
    ])
    .unwrap();
    let mut order = sample_order();
    assert!(order.is_validate());
    assert!(order.is_encodable());
    let bytes = order.get_bytes();
    assert_eq!(bytes.len(), 38);
    assert_eq!(bytes[0], 0xff);
    assert_eq!(
        bytes,
        vec![
            0xff, // tag
            0, 0, 0, 1, // account
            0, // sub-account
            0, 5, // slot
            0, 0, 0, // nonce
            0, 1, // base token
            0, 2, // quote token
            0, 0, 0, 0, 0, 0, 0, 0, 0, 0, 0, 0, 0, 0xc3, 0x50, // price 50000
            0, // buy
            5, 10, // fee ratios
            0x4a, 0x81, 0x7c, 0x80, 0x08, // 10^18 = 10^10 * 10^8: mantissa 10^10, exponent 8
        ]
    );
    order.sign(&params, &signer).unwrap();
    assert_eq!(order.is_signature_valid(&params), Ok(true));
    assert_eq!(order.get_bytes(), bytes);
    assert_eq!(
        order.signature().pub_key,
        signer.public_key(&params)
    );

    let mut other = order.clone();
    other.fee_ratio1 = 6;
    assert_eq!(other.is_signature_valid(&params), Ok(false));
}

#[test]
fn order_checks_report_the_first_failure() {
    let mut order = sample_order();
    assert_eq!(order.validate(), Ok(()));
    order.is_sell = 2;
    assert_eq!(
        order.validate(),
        Err(ValidationError { field: Field::IsSell, reason: Reason::RangeError })
    );
    order.price = BigUint::from(1u8) << 120;
    assert_eq!(
        order.validate(),
        Err(ValidationError { field: Field::Price, reason: Reason::RangeError })
    );
    assert!(!order.is_encodable());
    order.amount = BigUint::from_str("34359738368").unwrap() + 1u8;
    assert_eq!(
        order.validate(),
        Err(ValidationError { field: Field::Amount, reason: Reason::UnpackableAmount })
    );
    order.quote_token_id = TokenId(65536);
    assert_eq!(
        order.validate(),
        Err(ValidationError { field: Field::QuoteTokenId, reason: Reason::RangeError })
    );
    order.base_token_id = TokenId(70000);
    assert_eq!(
        order.validate(),
        Err(ValidationError { field: Field::BaseTokenId, reason: Reason::RangeError })
    );
    order.nonce = Nonce(1 << 24);
    assert_eq!(
        order.validate(),
        Err(ValidationError { field: Field::Nonce, reason: Reason::RangeError })
    );
    order.slot_id = SlotId(65536);
    assert_eq!(
        order.validate(),
        Err(ValidationError { field: Field::SlotId, reason: Reason::RangeError })
    );
    assert!(!order.is_validate());
}

#[test]
fn order_sign_message() {
    let order = sample_order();
    assert_eq!(
        order.get_ethereum_sign_message("USDT", "BTC", 18),
        "Order for 1.0 USDT -> BTC\nprice: 50000\nNonce: 0"
    );
    let mut limit = sample_order();
    limit.amount = BigUint::from(0u8);
    limit.nonce = Nonce(17);
    assert_eq!(
        limit.get_ethereum_sign_message("USDT", "BTC", 18),
        "Limit order for USDT -> BTC\nprice: 50000\nNonce: 17"
    );
    let mut small = sample_order();
    small.amount = BigUint::from(1205u32);
    assert_eq!(
        small.get_ethereum_sign_message("A", "B", 6),
        "Order for 0.001205 A -> B\nprice: 50000\nNonce: 0"
    );
}

#[test]
fn orders_block_is_cut_or_filled_to_its_width() {
    let maker = vec![1u8; 100];
    let exact = orders_block(&maker, &vec![2u8; 78]);
    assert_eq!(exact.len(), 178);
    assert_eq!(&exact[..100], &maker[..]);
    assert_eq!(&exact[100..], &vec![2u8; 78][..]);

    let over = orders_block(&maker, &vec![2u8; 79]);
    assert_eq!(over, exact);

    let under = orders_block(&[1u8; 38], &[2u8; 38]);
    assert_eq!(under.len(), 178);
    assert_eq!(&under[..38], &[1u8; 38][..]);
    assert_eq!(&under[38..76], &[2u8; 38][..]);
    assert!(under[76..].iter().all(|b| *b == 0));
}

#[test]
fn order_matching_end_to_end() {
    let params = zksync_crypto_init();
    let signer = ZkLinkSigner::new_from_bytes(&[4u8; 32]).unwrap();
    let mut maker = sample_order();
    let mut taker = sample_order();
    taker.is_sell = 1;
    taker.account_id = AccountId(2);
    maker.sign(&params, &signer).unwrap();
    taker.sign(&params, &signer).unwrap();
    let mut tx = OrderMatching::new(
        AccountId(3),
        SubAccountId(1),
        taker,
        maker,
        BigUint::from(1000u32),
        TokenId(18),
        BigUint::from_str("808077878").unwrap(),
        BigUint::from_str("5479779").unwrap(),
    );
    assert!(tx.is_validate());
    let bytes = tx.get_bytes(&params);
    assert_eq!(bytes.len(), 74);
    assert_eq!(bytes[0], 0x08);
    assert_eq!(&bytes[1..5], &[0, 0, 0, 3]);
    assert_eq!(bytes[5], 1);
    assert_eq!(&bytes[38..40], &[0, 18]);
    assert_eq!(&bytes[40..42], &[0x7d, 0x00]);
    assert_eq!(&bytes[42..58], &808077878u128.to_be_bytes());
    assert_eq!(&bytes[58..74], &5479779u128.to_be_bytes());

    tx.sign(&params, &signer).unwrap();
    assert_eq!(tx.is_signature_valid(&params), Ok(true));
    assert_eq!(tx.maker.is_signature_valid(&params), Ok(true));

    // The outer signature covers the orders through their commitment.
    let mut changed = tx.clone();
    changed.maker.fee_ratio1 = 9;
    assert_eq!(changed.is_signature_valid(&params), Ok(false));

    // An expected amount need not be packable, but must fit 16 bytes.
    tx.expect_base_amount = BigUint::from(u128::MAX);
    tx.expect_quote_amount = BigUint::from(u128::MAX) + 1u8;
    assert_eq!(
        tx.validate(),
        Err(ValidationError { field: Field::ExpectQuoteAmount, reason: Reason::RangeError })
    );
    tx.expect_base_amount = BigUint::from(1u8) << 128;
    assert_eq!(
        tx.validate(),
        Err(ValidationError { field: Field::ExpectBaseAmount, reason: Reason::RangeError })
    );
    assert!(!tx.is_encodable());
    tx.fee_token = TokenId(65536);
    assert_eq!(
        tx.validate(),
        Err(ValidationError { field: Field::FeeToken, reason: Reason::RangeError })
    );
    tx.fee = BigUint::from(2049u32);
    assert_eq!(
        tx.validate(),
        Err(ValidationError { field: Field::Fee, reason: Reason::UnpackableAmount })
    );
    tx.maker.amount = BigUint::from(34359738369u64);
    assert_eq!(
        tx.validate(),
        Err(ValidationError { field: Field::Maker, reason: Reason::UnpackableAmount })
    );
    tx.taker.is_sell = 7;
    assert_eq!(
        tx.validate(),
        Err(ValidationError { field: Field::Taker, reason: Reason::RangeError })
    );
    assert!(!tx.is_validate());
}
