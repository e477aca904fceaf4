use num::BigUint;
use sha3::{Digest, Keccak256};
use zklink_sdk::basic_types::error::TypeError;
use zklink_sdk::basic_types::h256::H256;
use zklink_sdk::basic_types::zklink_address::ZkLinkAddress;
use zklink_sdk::basic_types::{AccountId, Nonce};
use zklink_sdk::crypto::digest::sha256_bytes;
use zklink_sdk::crypto::pk_signer::ZkLinkSigner;
use zklink_sdk::crypto::zksync_crypto_init;
use zklink_sdk::eth_signer::{EthSignerError, PrivateKeySigner};
use zklink_sdk::interface::error::SignError;
use zklink_sdk::interface::sign_change_pubkey::{
    check_create2_address, check_create2data, create_signed_change_pubkey,
    create_submitter_signature, eth_signature_of_change_pubkey, sign_change_pubkey,
};
use zklink_sdk::interface::{ChangePubKeyAuthRequest, ZkLinkTx};
use zklink_sdk::tx_type::change_pubkey::{ChangePubKey, ChangePubKeyAuthData, Create2Data};
use zklink_sdk::tx_type::validator::{Field, Reason, ValidationError};

fn keccak(data: &[u8]) -> [u8; 32] {
    Keccak256::digest(data).into()
}

fn sample_create2() -> Create2Data {
    Create2Data {
        creator_address: ZkLinkAddress::from_slice(&[0x11; 20]).unwrap(),
        salt_arg: H256::from_slice(&[0x22; 32]).unwrap(),
        code_hash: H256::from_slice(&[0x33; 32]).unwrap(),
    }
}

fn eth_signer() -> PrivateKeySigner {
    PrivateKeySigner::new(H256::from_slice(&[0x42; 32]).unwrap())
}

#[test]
fn create2_address_is_the_standard_derivation() {
    let data = sample_create2();
    let pubkey_hash = [0x44u8; 20];
    let mut salt_preimage = vec![0x22u8; 32];
    salt_preimage.extend_from_slice(&pubkey_hash);
    let salt = keccak(&salt_preimage);
    let mut preimage = vec![0xffu8];
    preimage.extend_from_slice(&[0x11; 20]);
    preimage.extend_from_slice(&salt);
    preimage.extend_from_slice(&[0x33; 32]);
    let expected = keccak(&preimage);
    assert_eq!(data.get_address(&pubkey_hash).as_bytes(), &expected[12..]);
}

#[test]
fn create2_check_passes_only_for_the_derived_address() {
    let params = zksync_crypto_init();
    let signer = ZkLinkSigner::new_from_bytes(&[5u8; 32]).unwrap();
    let data = sample_create2();
    let pubkey_hash = signer.public_key(&params).public_key_hash(&params).unwrap();
    let derived = data.get_address(pubkey_hash.as_bytes());
    assert_eq!(check_create2data(&params, &signer, &data, &derived), Ok(()));

    let mut other = derived.as_bytes().to_vec();
    other[19] ^= 1;
    let other = ZkLinkAddress::from_slice(&other).unwrap();
    assert_eq!(
        check_create2data(&params, &signer, &data, &other),
        Err(SignError::AuthorizationMismatch)
    );
    let long = ZkLinkAddress::from_slice(&[0u8; 32]).unwrap();
    assert_eq!(
        check_create2data(&params, &signer, &data, &long),
        Err(SignError::AuthorizationMismatch)
    );
    assert_eq!(check_create2_address(&derived, &derived), Ok(()));
    assert_eq!(check_create2_address(&derived, &other), Err(SignError::AuthorizationMismatch));
}

#[test]
fn change_pubkey_bytes_hold_the_proof_of_agreement() {
    let params = zksync_crypto_init();
    let signer = ZkLinkSigner::new_from_bytes(&[5u8; 32]).unwrap();
    let pubkey_hash = signer.public_key(&params).public_key_hash(&params).unwrap();
    let tx = ChangePubKey::new(AccountId(2), pubkey_hash, Nonce(7), BigUint::from(100u8), None);
    assert!(tx.is_validate());
    let bytes = tx.get_bytes();
    assert_eq!(bytes.len(), 1 + 4 + 20 + 4 + 2 + 1);
    assert_eq!(bytes[0], 0x06);
    assert_eq!(&bytes[1..5], &[0, 0, 0, 2]);
    assert_eq!(&bytes[5..25], pubkey_hash.as_bytes());
    assert_eq!(&bytes[25..29], &[0, 0, 0, 7]);
    assert_eq!(&bytes[29..31], &[0x0c, 0x80]);
    assert_eq!(bytes[31], 0);

    let create2 = ChangePubKeyAuthData::EthCreate2 { data: sample_create2() };
    let mut expected = vec![2u8];
    expected.extend_from_slice(&[0u8; 12]);
    expected.extend_from_slice(&[0x11; 20]);
    expected.extend_from_slice(&[0x22; 32]);
    expected.extend_from_slice(&[0x33; 32]);
    assert_eq!(create2.get_bytes(), expected);

    let signed = create_signed_change_pubkey(&params, &signer, tx.clone(), create2).unwrap();
    assert_eq!(signed.is_signature_valid(&params), Ok(true));
    assert_eq!(signed.tx_hash().as_ref(), &sha256_bytes(&signed.get_bytes())[..]);
    assert_eq!(&signed.get_bytes()[..31], &bytes[..31]);
    assert_eq!(&signed.get_bytes()[31..], &expected[..]);
    // The signature commits to the proof: with another proof it no longer fits.
    let mut stripped = signed.clone();
    stripped.eth_auth_data = ChangePubKeyAuthData::OnChain;
    assert_eq!(stripped.is_signature_valid(&params), Ok(false));
}

#[test]
fn change_pubkey_checks() {
    let params = zksync_crypto_init();
    let signer = ZkLinkSigner::new_from_bytes(&[5u8; 32]).unwrap();
    let pubkey_hash = signer.public_key(&params).public_key_hash(&params).unwrap();
    let mut tx = ChangePubKey::new(AccountId(2), pubkey_hash, Nonce(7), BigUint::from(2049u32), None);
    assert_eq!(
        tx.validate(),
        Err(ValidationError { field: Field::Fee, reason: Reason::UnpackableAmount })
    );
    assert!(tx.is_encodable());
    tx.fee = BigUint::from(2047u32) * BigUint::from(10u8).pow(31) + 1u8;
    assert!(!tx.is_encodable());
    assert!(!tx.is_validate());
}

#[test]
fn sign_change_pubkey_on_chain() {
    let params = zksync_crypto_init();
    let signer = ZkLinkSigner::new_from_bytes(&[5u8; 32]).unwrap();
    let pubkey_hash = signer.public_key(&params).public_key_hash(&params).unwrap();
    let tx = ChangePubKey::new(AccountId(2), pubkey_hash, Nonce(7), BigUint::from(100u8), None);
    let contract = ZkLinkAddress::from_slice(&[0x77; 20]).unwrap();
    let account = ZkLinkAddress::from_slice(&[0x88; 20]).unwrap();
    let signed = sign_change_pubkey(
        &params,
        &eth_signer(),
        &signer,
        tx,
        contract,
        1,
        account,
        ChangePubKeyAuthRequest::OnChain,
    )
    .unwrap();
    assert!(signed.eth_signature.is_none());
    let ZkLinkTx::ChangePubKey(tx) = signed.tx;
    assert_eq!(tx.eth_auth_data, ChangePubKeyAuthData::OnChain);
    assert_eq!(tx.is_signature_valid(&params), Ok(true));
}

#[test]
fn sign_change_pubkey_with_create2() {
    let params = zksync_crypto_init();
    let signer = ZkLinkSigner::new_from_bytes(&[5u8; 32]).unwrap();
    let pubkey_hash = signer.public_key(&params).public_key_hash(&params).unwrap();
    let data = sample_create2();
    let account = data.get_address(pubkey_hash.as_bytes());
    let contract = ZkLinkAddress::from_slice(&[0x77; 20]).unwrap();
    let tx = ChangePubKey::new(AccountId(2), pubkey_hash, Nonce(7), BigUint::from(100u8), None);
    let signed = sign_change_pubkey(
        &params,
        &eth_signer(),
        &signer,
        tx.clone(),
        contract.clone(),
        1,
        account,
        ChangePubKeyAuthRequest::EthCreate2 { data: data.clone() },
    )
    .unwrap();
    let ZkLinkTx::ChangePubKey(signed_tx) = signed.tx;
    assert_eq!(signed_tx.eth_auth_data, ChangePubKeyAuthData::EthCreate2 { data: data.clone() });
    assert_eq!(signed_tx.is_signature_valid(&params), Ok(true));

    let wrong = ZkLinkAddress::from_slice(&[0x88; 20]).unwrap();
    let refused = sign_change_pubkey(
        &params,
        &eth_signer(),
        &signer,
        tx,
        contract,
        1,
        wrong,
        ChangePubKeyAuthRequest::EthCreate2 { data },
    );
    assert_eq!(refused.err(), Some(SignError::AuthorizationMismatch));
}

#[test]
fn sign_change_pubkey_with_an_ethereum_signature() {
    let params = zksync_crypto_init();
    let signer = ZkLinkSigner::new_from_bytes(&[5u8; 32]).unwrap();
    let pubkey_hash = signer.public_key(&params).public_key_hash(&params).unwrap();
    let tx = ChangePubKey::new(AccountId(2), pubkey_hash, Nonce(7), BigUint::from(100u8), None);
    let contract = ZkLinkAddress::from_slice(&[0x77; 20]).unwrap();
    let account = ZkLinkAddress::from_slice(&[0x88; 20]).unwrap();

    // The digest is that of EIP-712 for the domain and the message of this protocol.
    let mut domain = Vec::new();
    domain.extend_from_slice(&keccak(
        b"EIP712Domain(string name,string version,uint256 chainId,address verifyingContract)",
    ));
    domain.extend_from_slice(&keccak(b"ZkLink"));
    domain.extend_from_slice(&keccak(b"1"));
    domain.extend_from_slice(&[0u8; 28]);
    domain.extend_from_slice(&80001u32.to_be_bytes());
    domain.extend_from_slice(&[0u8; 12]);
    domain.extend_from_slice(&[0x77; 20]);
    let mut message = Vec::new();
    message.extend_from_slice(&keccak(
        b"ChangePubKey(bytes20 pubKeyHash,uint32 nonce,uint32 accountId)",
    ));
    message.extend_from_slice(pubkey_hash.as_bytes());
    message.extend_from_slice(&[0u8; 12]);
    message.extend_from_slice(&[0u8; 28]);
    message.extend_from_slice(&7u32.to_be_bytes());
    message.extend_from_slice(&[0u8; 28]);
    message.extend_from_slice(&2u32.to_be_bytes());
    let mut preimage = vec![0x19u8, 0x01];
    preimage.extend_from_slice(&keccak(&domain));
    preimage.extend_from_slice(&keccak(&message));
    let digest = keccak(&preimage);
    let typed_data = tx.to_eip712_request_payload(80001, &contract).unwrap();
    assert_eq!(typed_data.data_hash.as_bytes(), &digest[..]);

    let eth_signature =
        eth_signature_of_change_pubkey(80001, &tx, &eth_signer(), &contract).unwrap();
    assert_eq!(Ok(eth_signature), eth_signer().sign_typed_data(&typed_data));

    let signed = sign_change_pubkey(
        &params,
        &eth_signer(),
        &signer,
        tx.clone(),
        contract,
        80001,
        account.clone(),
        ChangePubKeyAuthRequest::EthECDSA,
    )
    .unwrap();
    let ZkLinkTx::ChangePubKey(signed_tx) = signed.tx;
    assert_eq!(signed_tx.eth_auth_data, ChangePubKeyAuthData::EthECDSA { eth_signature });
    assert_eq!(signed_tx.is_signature_valid(&params), Ok(true));

    // A contract address of 32 bytes is no address of the EVM.
    let long = ZkLinkAddress::from_slice(&[0x77; 32]).unwrap();
    assert_eq!(
        tx.to_eip712_request_payload(1, &long).err(),
        Some(TypeError::SizeMismatch)
    );
    let refused = sign_change_pubkey(
        &params,
        &eth_signer(),
        &signer,
        tx.clone(),
        long,
        1,
        account.clone(),
        ChangePubKeyAuthRequest::EthECDSA,
    );
    assert_eq!(refused.err(), Some(SignError::Eip712Failed(TypeError::SizeMismatch)));
    // A key that is no scalar of secp256k1 cannot sign.
    let bad = PrivateKeySigner::new(H256::zero());
    let refused = sign_change_pubkey(
        &params,
        &bad,
        &signer,
        tx,
        ZkLinkAddress::from_slice(&[0x77; 20]).unwrap(),
        1,
        account,
        ChangePubKeyAuthRequest::EthECDSA,
    );
    assert_eq!(
        refused.err(),
        Some(SignError::EthSigningError(EthSignerError::SigningFailed))
    );
}

#[test]
fn submitter_signs_the_sha256_digest() {
    let params = zksync_crypto_init();
    let signer = ZkLinkSigner::new_from_bytes(&[5u8; 32]).unwrap();
    let tx_bytes = b"any transaction bytes";
    let signature = create_submitter_signature(&params, tx_bytes, &signer).unwrap();
    let digest = sha256_bytes(tx_bytes);
    assert_eq!(signature.verify_musig(&params, &digest), Ok(true));
    assert_eq!(signature.verify_musig(&params, tx_bytes), Ok(false));
    assert_eq!(
        sha256_bytes(b"abc"),
        vec![
            0xba, 0x78, 0x16, 0xbf, 0x8f, 0x01, 0xcf, 0xea, 0x41, 0x41, 0x40, 0xde, 0x5d, 0xae,
            0x22, 0x23, 0xb0, 0x03, 0x61, 0xa3, 0x96, 0x17, 0x7a, 0x9c, 0xb4, 0x10, 0xff, 0x61,
            0xf2, 0x00, 0x15, 0xad
        ]
    );
}
