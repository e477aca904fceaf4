use k256::ecdsa::{RecoveryId, Signature, SigningKey, VerifyingKey};
use zklink_sdk::basic_types::h256::H256;
use zklink_sdk::eth_signer::{EthSignerError, PackedEthSignature, PrivateKeySigner};

#[test]
fn ethereum_signature_recovers_the_signer() {
    let key = [0x42u8; 32];
    let digest = H256::from_slice(&[0x17u8; 32]).unwrap();
    let signer = PrivateKeySigner::new(H256::from_slice(&key).unwrap());
    let packed = signer.sign_byted_data(&digest).unwrap();
    let bytes = packed.as_bytes();
    assert_eq!(bytes.len(), 65);
    assert!(bytes[64] == 27 || bytes[64] == 28);

    let signature = Signature::from_slice(&bytes[..64]).unwrap();
    let recovery_id = RecoveryId::from_byte(bytes[64] - 27).unwrap();
    let recovered =
        VerifyingKey::recover_from_prehash(digest.as_bytes(), &signature, recovery_id).unwrap();
    let expected = *SigningKey::from_slice(&key).unwrap().verifying_key();
    assert_eq!(recovered, expected);

    // Signing is deterministic.
    assert_eq!(signer.sign_byted_data(&digest), Ok(packed));
    assert_eq!(packed.as_hex().len(), 2 + 130);
}

#[test]
fn a_zero_key_cannot_sign() {
    let signer = PrivateKeySigner::new(H256::zero());
    let digest = H256::from_slice(&[1u8; 32]).unwrap();
    assert_eq!(signer.sign_byted_data(&digest), Err(EthSignerError::SigningFailed));
}

#[test]
fn recovery_byte_is_raised_by_27() {
    let packed = PackedEthSignature::from_parts(&[9u8; 64], 1);
    assert_eq!(&packed.as_bytes()[..64], &[9u8; 64][..]);
    assert_eq!(packed.as_bytes()[64], 28);
}
