use zklink_sdk::basic_types::error::TypeError;
use zklink_sdk::basic_types::tx_hash::TxHash;

#[test]
fn from_slice_checks_length() {
    assert!(TxHash::from_slice(&[0u8; 31]).is_none());
    assert!(TxHash::from_slice(&[0u8; 33]).is_none());
    assert!(TxHash::from_slice(&[]).is_none());
    let h = TxHash::from_slice(&[7u8; 32]).unwrap();
    assert_eq!(h.as_ref(), &[7u8; 32][..]);
}

#[test]
fn string_form_is_prefixed_lower_hex() {
    let mut data = [0u8; 32];
    for (i, b) in data.iter_mut().enumerate() {
        *b = (i as u8) * 9 + 0xa0;
    }
    let h = TxHash::from_slice(&data).unwrap();
    assert_eq!(
        h.to_string(),
        "0xa0a9b2bbc4cdd6dfe8f1fa030c151e273039424b545d666f78818a939ca5aeb7"
    );
    assert_eq!(TxHash::default().to_string(), format!("0x{}", "00".repeat(32)));
}

#[test]
fn string_round_trip() {
    for seed in [0u8, 1, 0x7f, 0x80, 0xff] {
        let mut data = [0u8; 32];
        for (i, b) in data.iter_mut().enumerate() {
            *b = seed.wrapping_mul(31).wrapping_add(i as u8 * 17);
        }
        let h = TxHash::from_slice(&data).unwrap();
        assert_eq!(TxHash::from_str(&h.to_string()), Ok(h));
    }
}

#[test]
fn from_str_accepts_upper_case_and_refuses_the_rest() {
    let lower = format!("0x{}", "ab".repeat(32));
    let upper = format!("0x{}", "AB".repeat(32));
    assert_eq!(TxHash::from_str(&upper), TxHash::from_str(&lower));
    assert_eq!(TxHash::from_str(&upper).unwrap().as_ref(), &[0xabu8; 32][..]);

    assert_eq!(TxHash::from_str(&"ab".repeat(32)), Err(TypeError::ParseError));
    assert_eq!(TxHash::from_str(""), Err(TypeError::ParseError));
    assert_eq!(TxHash::from_str("0"), Err(TypeError::ParseError));
    assert_eq!(TxHash::from_str(&format!("0X{}", "ab".repeat(32))), Err(TypeError::ParseError));
    assert_eq!(TxHash::from_str(&format!("0x{}", "zz".repeat(32))), Err(TypeError::ParseError));
    assert_eq!(TxHash::from_str(&format!("0x{}a", "ab".repeat(32))), Err(TypeError::ParseError));
    assert_eq!(TxHash::from_str(&format!("0x{}", "é".repeat(32))), Err(TypeError::ParseError));
    assert_eq!(TxHash::from_str(&format!("0x{}", "ab".repeat(31))), Err(TypeError::SizeMismatch));
    assert_eq!(TxHash::from_str(&format!("0x{}", "ab".repeat(33))), Err(TypeError::SizeMismatch));
    assert_eq!(TxHash::from_str("0x"), Err(TypeError::SizeMismatch));
}

#[test]
fn hash_of_transaction_bytes_is_sha256() {
    let hash = TxHash::of_bytes(b"abc");
    assert_eq!(
        hash.to_string(),
        "0xba7816bf8f01cfea414140de5dae2223b00361a396177a9cb410ff61f20015ad"
    );
}
