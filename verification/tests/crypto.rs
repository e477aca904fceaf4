use zklink_sdk::basic_types::error::TypeError;
use zklink_sdk::crypto::error::ZkSignerError;
use zklink_sdk::crypto::pk_signer::ZkLinkSigner;
use zklink_sdk::crypto::signature::{
    PackedPublicKey, PackedSignature, PubKeyHash, ZkLinkSignature,
};
use zklink_sdk::crypto::deserialize_signature;
use zklink_sdk::crypto::{
    pub_key_hash, rescue_hash_orders, rescue_hash_tx_msg, sign_musig, verify_musig,
    zksync_crypto_init,
};

#[test]
fn sign_then_verify_is_true() {
    let params = zksync_crypto_init();
    let key = [1u8; 32];
    let msg = b"hello world";
    let signature = sign_musig(&params, &key, msg).unwrap();
    assert_eq!(signature.len(), 96);
    assert_eq!(verify_musig(&params, msg, &signature), Ok(true));
}

#[test]
fn signing_is_deterministic() {
    let params = zksync_crypto_init();
    let key = [2u8; 32];
    let first = sign_musig(&params, &key, b"message").unwrap();
    let second = sign_musig(&params, &key, b"message").unwrap();
    assert_eq!(first, second);
    let other = sign_musig(&params, &key, b"massage").unwrap();
    assert_ne!(first, other);
}

#[test]
fn flipped_message_byte_does_not_verify() {
    let params = zksync_crypto_init();
    let key = [3u8; 32];
    let msg = [7u8, 8, 9, 10, 11, 12];
    let signature = sign_musig(&params, &key, &msg).unwrap();
    for i in 0..msg.len() {
        let mut changed = msg;
        changed[i] ^= 0x01;
        assert_eq!(verify_musig(&params, &changed, &signature), Ok(false));
    }
}

#[test]
fn wrong_length_signature_is_a_size_error() {
    let params = zksync_crypto_init();
    let key = [1u8; 32];
    let signature = sign_musig(&params, &key, b"m").unwrap();
    assert_eq!(
        verify_musig(&params, b"m", &signature[..95]),
        Err(ZkSignerError::SizeMismatch)
    );
    let mut longer = signature.clone();
    longer.push(0);
    assert_eq!(verify_musig(&params, b"m", &longer), Err(ZkSignerError::SizeMismatch));
    assert_eq!(verify_musig(&params, b"m", &[]), Err(ZkSignerError::SizeMismatch));
}

#[test]
fn private_key_must_be_a_scalar() {
    let params = zksync_crypto_init();
    assert_eq!(sign_musig(&params, &[0xffu8; 32], b"m"), Err(ZkSignerError::InvalidPrivKey));
    assert_eq!(sign_musig(&params, &[1u8; 31], b"m"), Err(ZkSignerError::InvalidPrivKey));
    assert_eq!(sign_musig(&params, &[1u8; 33], b"m"), Err(ZkSignerError::InvalidPrivKey));
    assert!(sign_musig(&params, &[0u8; 32], b"m").is_ok());
}

#[test]
fn malformed_parts_are_errors_not_false() {
    let params = zksync_crypto_init();
    let key = [1u8; 32];
    let signature = sign_musig(&params, &key, b"m").unwrap();
    let mut bad_s = signature.clone();
    for b in bad_s[64..].iter_mut() {
        *b = 0xff;
    }
    assert_eq!(verify_musig(&params, b"m", &bad_s), Err(ZkSignerError::InvalidSignature));
    let mut wrong_s = signature.clone();
    wrong_s[64] ^= 1;
    assert_eq!(verify_musig(&params, b"m", &wrong_s), Ok(false));
}

#[test]
fn digests_have_32_bytes_and_depend_on_input() {
    let params = zksync_crypto_init();
    let a = rescue_hash_tx_msg(&params, b"abc");
    let b = rescue_hash_tx_msg(&params, b"abd");
    assert_eq!(a.len(), 32);
    assert_ne!(a, b);
    let block = [5u8; 178];
    let mut block2 = block;
    block2[177] = 6;
    let c = rescue_hash_orders(&params, &block);
    assert_eq!(c.len(), 32);
    assert_ne!(c, rescue_hash_orders(&params, &block2));
}

#[test]
fn public_key_hash_has_20_bytes() {
    let params = zksync_crypto_init();
    let signature = sign_musig(&params, &[1u8; 32], b"m").unwrap();
    let hash = pub_key_hash(&params, &signature[..32]).unwrap();
    assert_eq!(hash.len(), 20);
    assert_eq!(pub_key_hash(&params, &signature[..31]), Err(ZkSignerError::SizeMismatch));
}

#[test]
fn a_public_key_must_be_a_point() {
    let params = zksync_crypto_init();
    // y = 2^255 - 1 is not an element of the base field.
    let not_a_point = [0xffu8; 32];
    assert_eq!(
        PackedPublicKey::from_bytes(&params, &not_a_point),
        Err(ZkSignerError::InvalidPubkey)
    );
    assert_eq!(pub_key_hash(&params, &not_a_point), Err(ZkSignerError::InvalidPubkey));
    let mut signature = sign_musig(&params, &[1u8; 32], b"m").unwrap();
    for b in signature[..32].iter_mut() {
        *b = 0xff;
    }
    assert_eq!(verify_musig(&params, b"m", &signature), Err(ZkSignerError::InvalidPubkey));
    let mut bad_r = sign_musig(&params, &[1u8; 32], b"m").unwrap();
    for b in bad_r[32..64].iter_mut() {
        *b = 0xff;
    }
    assert_eq!(verify_musig(&params, b"m", &bad_r), Err(ZkSignerError::InvalidSignature));
    assert_eq!(
        deserialize_signature(&params, &bad_r[32..]),
        Err(ZkSignerError::InvalidSignature)
    );
    assert_eq!(
        deserialize_signature(&params, &bad_r[33..]),
        Err(ZkSignerError::SizeMismatch)
    );
}

#[test]
fn signer_and_signature_types() {
    let params = zksync_crypto_init();
    let key = [4u8; 32];
    let signer = ZkLinkSigner::new_from_bytes(&key).unwrap();
    assert!(ZkLinkSigner::new_from_bytes(&[0xff; 32]).is_err());
    assert!(ZkLinkSigner::new_from_bytes(&key[..31]).is_err());
    let signature = signer.sign_musig(&params, b"payload").unwrap();
    assert_eq!(signature.as_bytes(), sign_musig(&params, &key, b"payload").unwrap());
    assert_eq!(signature.pub_key, signer.public_key(&params));
    assert_eq!(signature.verify_musig(&params, b"payload"), Ok(true));
    assert_eq!(signature.verify_musig(&params, b"payloae"), Ok(false));

    let parts = deserialize_signature(&params, &signature.as_bytes()[32..]).unwrap();
    assert_eq!(&parts.0[..], &signature.signature.data[..32]);
    assert_eq!(&parts.1[..], &signature.signature.data[32..]);

    let hex = signature.as_hex();
    assert_eq!(hex.len(), 2 + 192);
    assert_eq!(ZkLinkSignature::from_hex(&hex), Ok(signature));
    assert_eq!(ZkLinkSignature::from_hex(&hex[2..]), Err(TypeError::ParseError));
    assert_eq!(ZkLinkSignature::from_hex(&hex[..hex.len() - 2]), Err(TypeError::SizeMismatch));
    assert_eq!(ZkLinkSignature::from_bytes(&[0u8; 95]), Err(ZkSignerError::SizeMismatch));
    assert_eq!(ZkLinkSignature::default().as_bytes(), vec![0u8; 96]);

    let key_hash = signature.pub_key.public_key_hash(&params).unwrap();
    assert_eq!(
        key_hash.as_bytes(),
        &pub_key_hash(&params, signature.pub_key.as_bytes()).unwrap()[..]
    );
    assert_eq!(key_hash.as_hex().len(), 2 + 40);
    assert_eq!(signature.pub_key.as_hex().len(), 2 + 64);
}

#[test]
fn every_byte_of_a_message_is_hashed() {
    let params = zksync_crypto_init();
    // A message of fewer than 736 bits is filled with zero bits.
    assert_eq!(rescue_hash_tx_msg(&params, &[3u8, 0]), rescue_hash_tx_msg(&params, &[3u8]));
    assert_eq!(rescue_hash_tx_msg(&params, &[]), rescue_hash_tx_msg(&params, &[0u8; 92]));
    // A longer one is hashed whole.
    let short = [3u8; 92];
    let long = [3u8; 93];
    assert_ne!(rescue_hash_tx_msg(&params, &short), rescue_hash_tx_msg(&params, &long));
    let mut changed = [3u8; 200];
    let whole = rescue_hash_tx_msg(&params, &changed);
    changed[199] = 4;
    assert_ne!(rescue_hash_tx_msg(&params, &changed), whole);

    let key = [1u8; 32];
    let mut msg = vec![7u8; 300];
    let signature = sign_musig(&params, &key, &msg).unwrap();
    assert_eq!(verify_musig(&params, &msg, &signature), Ok(true));
    msg[299] ^= 0x80;
    assert_eq!(verify_musig(&params, &msg, &signature), Ok(false));
}

#[test]
fn the_longest_message_has_8064_bytes() {
    let params = zksync_crypto_init();
    let key = [1u8; 32];
    let longest = vec![0xa5u8; 8064];
    let signature = sign_musig(&params, &key, &longest).unwrap();
    assert_eq!(verify_musig(&params, &longest, &signature), Ok(true));
    let too_long = vec![0xa5u8; 8065];
    assert_eq!(sign_musig(&params, &key, &too_long), Err(ZkSignerError::MessageTooLong));
    assert_eq!(verify_musig(&params, &too_long, &signature), Ok(false));
    // The key is looked at first.
    assert_eq!(sign_musig(&params, &[0xff; 32], &too_long), Err(ZkSignerError::InvalidPrivKey));
    let signer = ZkLinkSigner::new_from_bytes(&key).unwrap();
    assert_eq!(signer.sign_musig(&params, &too_long), Err(ZkSignerError::MessageTooLong));
}

#[test]
fn keys_and_signatures_as_hex() {
    let params = zksync_crypto_init();
    let signer = ZkLinkSigner::new_from_bytes(&[4u8; 32]).unwrap();
    let signature = signer.sign_musig(&params, b"payload").unwrap();

    let key = signature.pub_key;
    assert_eq!(PackedPublicKey::from_hex(&params, &key.as_hex()), Ok(key));
    assert_eq!(
        PackedPublicKey::from_hex(&params, &format!("0x{}", "ff".repeat(32))),
        Err(ZkSignerError::InvalidPubkey)
    );
    assert_eq!(
        PackedPublicKey::from_hex(&params, &key.as_hex()[2..]),
        Err(ZkSignerError::InvalidPubkey)
    );
    assert_eq!(
        PackedPublicKey::from_hex(&params, "0x00"),
        Err(ZkSignerError::SizeMismatch)
    );

    let packed = signature.signature;
    assert_eq!(packed.as_bytes(), &signature.as_bytes()[32..]);
    assert_eq!(PackedSignature::from_bytes(packed.as_bytes()), Ok(packed));
    assert_eq!(PackedSignature::from_bytes(&[0u8; 63]), Err(ZkSignerError::SizeMismatch));
    assert_eq!(PackedSignature::from_hex(&packed.as_hex()), Ok(packed));
    assert_eq!(PackedSignature::from_hex("0x1234"), Err(TypeError::SizeMismatch));
    assert_eq!(PackedSignature::from_hex("1234"), Err(TypeError::ParseError));

    let hash = key.public_key_hash(&params).unwrap();
    assert_eq!(PubKeyHash::from_hex(&hash.as_hex()), Ok(hash));
    assert_eq!(PubKeyHash::from_bytes(hash.as_bytes()), Ok(hash));
    assert_eq!(PubKeyHash::from_bytes(&[0u8; 21]), Err(TypeError::SizeMismatch));
    assert_eq!(PubKeyHash::from_hex("0xzz"), Err(TypeError::ParseError));
}
