//! Signing a change of public key, with the proof that the owner of the account agrees.
use crate::basic_types::error::TypeError;
use crate::basic_types::zklink_address::ZkLinkAddress;
use crate::bytes::same_bytes;
use crate::crypto::digest::{sha256, sha256_bytes};
use crate::crypto::pk_signer::ZkLinkSigner;
use crate::crypto::primitives::CryptoParams;
use crate::crypto::signature::ZkLinkSignature;
use crate::crypto::{public_key_hash_of, public_key_of, signature_of};
use crate::eth_signer::{eth_signature_of, PackedEthSignature, PrivateKeySigner};
use crate::interface::error::SignError;
use crate::interface::{ChangePubKeyAuthRequest, TxSignature, ZkLinkTx};
use crate::tx_type::change_pubkey::{
    create2_address, AuthDataView, ChangePubKey, ChangePubKeyAuthData, ChangePubKeyView,
    Create2Data, Create2View,
};
use vstd::prelude::*;

verus! {

/// What the check of CREATE2 data gives: the address derived for the signer's public key
/// hash must be the address of the account.
pub open spec fn create2_check(
    private_key: Seq<u8>,
    data: Create2View,
    account_address: Seq<u8>,
) -> Result<(), SignError> {
    if create2_address(data, public_key_hash_of(public_key_of(private_key))) == account_address {
        Ok(())
    } else {
        Err(SignError::AuthorizationMismatch)
    }
}

/// The proof of agreement that a request resolves to, or the reason why it does not.
pub open spec fn resolved_auth(
    request: ChangePubKeyAuthRequest,
    eth_key: Seq<u8>,
    private_key: Seq<u8>,
    tx: ChangePubKeyView,
    main_contract: Seq<u8>,
    l1_client_id: nat,
    account_address: Seq<u8>,
) -> Result<AuthDataView, SignError> {
    match request {
        ChangePubKeyAuthRequest::OnChain => Ok(AuthDataView::OnChain),
        ChangePubKeyAuthRequest::EthECDSA => if main_contract.len() != 20 {
            Err(SignError::Eip712Failed(TypeError::SizeMismatch))
        } else {
            match eth_signature_of(eth_key, tx.eip712_digest(l1_client_id, main_contract)) {
                Ok(eth_signature) => Ok(AuthDataView::EthECDSA { eth_signature }),
                Err(e) => Err(SignError::EthSigningError(e)),
            }
        },
        ChangePubKeyAuthRequest::EthCreate2 { data } => match create2_check(
            private_key,
            data@,
            account_address,
        ) {
            Ok(_) => Ok(AuthDataView::EthCreate2 { data: data@ }),
            Err(e) => Err(e),
        },
    }
}

/// The transaction with a proof of agreement attached and signed over it.
pub open spec fn signed_with_auth(
    tx: ChangePubKeyView,
    auth: AuthDataView,
    private_key: Seq<u8>,
) -> ChangePubKeyView {
    let with_auth = ChangePubKeyView { eth_auth_data: auth, ..tx };
    ChangePubKeyView { signature: signature_of(private_key, with_auth.bytes()), ..with_auth }
}

/// What signing a change of public key gives: the transaction with the resolved proof of
/// agreement, signed over it, or the reason why the proof could not be had.
pub open spec fn signed_change_pubkey(
    request: ChangePubKeyAuthRequest,
    eth_key: Seq<u8>,
    private_key: Seq<u8>,
    tx: ChangePubKeyView,
    main_contract: Seq<u8>,
    l1_client_id: nat,
    account_address: Seq<u8>,
) -> Result<ChangePubKeyView, SignError> {
    match resolved_auth(
        request,
        eth_key,
        private_key,
        tx,
        main_contract,
        l1_client_id,
        account_address,
    ) {
        Ok(auth) => Ok(signed_with_auth(tx, auth, private_key)),
        Err(e) => Err(e),
    }
}

/// Compares the address derived from CREATE2 data with the address of the account.
pub fn check_create2_address(derived: &ZkLinkAddress, account_address: &ZkLinkAddress) -> (r:
    Result<(), SignError>)
    ensures
        r == (if derived@ == account_address@ {
            Ok::<(), SignError>(())
        } else {
            Err(SignError::AuthorizationMismatch)
        }),
{
    if same_bytes(derived.as_bytes(), account_address.as_bytes()) {
        Ok(())
    } else {
        Err(SignError::AuthorizationMismatch)
    }
}

/// Checks that a contract made with CREATE2 from `data`, bound to the signer's public key,
/// has the address of the account. Fails with `AuthorizationMismatch` for any other address.
pub fn check_create2data(
    params: &CryptoParams,
    zklink_signer: &ZkLinkSigner,
    data: &Create2Data,
    account_address: &ZkLinkAddress,
) -> (r: Result<(), SignError>)
    ensures
        r == create2_check(zklink_signer.private_key(), data@, account_address@),
{
    let public_key = zklink_signer.public_key(params);
    match public_key.public_key_hash(params) {
        Ok(pubkey_hash) => {
            let from_address = data.get_address(pubkey_hash.as_bytes());
            check_create2_address(&from_address, account_address)
        },
        Err(_) => Err(SignError::AuthorizationMismatch),
    }
}

/// Attaches a proof of agreement to the transaction and signs it.
pub fn create_signed_change_pubkey(
    params: &CryptoParams,
    zklink_signer: &ZkLinkSigner,
    tx: ChangePubKey,
    eth_auth_data: ChangePubKeyAuthData,
) -> (r: Result<ChangePubKey, SignError>)
    requires
        tx@.encodable(),
    ensures
        r is Ok,
        r->Ok_0@ == signed_with_auth(tx@, eth_auth_data@, zklink_signer.private_key()),
{
    let mut tx = tx;
    tx.eth_auth_data = eth_auth_data;
    match tx.sign(params, zklink_signer) {
        Ok(_) => Ok(tx),
        Err(e) => Err(SignError::ZkSigningError(e)),
    }
}

/// The Ethereum signature by which the owner of the account agrees to the change.
pub fn eth_signature_of_change_pubkey(
    l1_client_id: u32,
    tx: &ChangePubKey,
    eth_signer: &PrivateKeySigner,
    main_contract: &ZkLinkAddress,
) -> (r: Result<PackedEthSignature, SignError>)
    ensures
        match r {
            Ok(eth_signature) => resolved_auth(
                ChangePubKeyAuthRequest::EthECDSA,
                eth_signer.private_key(),
                Seq::empty(),
                tx@,
                main_contract@,
                l1_client_id as nat,
                Seq::empty(),
            ) == Ok::<AuthDataView, SignError>(
                AuthDataView::EthECDSA { eth_signature: eth_signature@ },
            ),
            Err(e) => resolved_auth(
                ChangePubKeyAuthRequest::EthECDSA,
                eth_signer.private_key(),
                Seq::empty(),
                tx@,
                main_contract@,
                l1_client_id as nat,
                Seq::empty(),
            ) == Err::<AuthDataView, SignError>(e),
        },
{
    let typed_data = match tx.to_eip712_request_payload(l1_client_id, main_contract) {
        Ok(typed_data) => typed_data,
        Err(e) => {
            return Err(SignError::Eip712Failed(e));
        },
    };
    match eth_signer.sign_byted_data(&typed_data.data_hash) {
        Ok(eth_signature) => Ok(eth_signature),
        Err(e) => Err(SignError::EthSigningError(e)),
    }
}

/// The signature of a submitter over a transaction: that of the SHA-256 digest of its bytes.
pub fn create_submitter_signature(
    params: &CryptoParams,
    tx_bytes: &[u8],
    zklink_signer: &ZkLinkSigner,
) -> (r: Result<ZkLinkSignature, SignError>)
    ensures
        r is Ok,
        r->Ok_0@ == signature_of(zklink_signer.private_key(), sha256(tx_bytes@)),
{
    let bytes_sha_256 = sha256_bytes(tx_bytes);
    match zklink_signer.sign_musig(params, bytes_sha_256.as_slice()) {
        Ok(signature) => Ok(signature),
        Err(e) => Err(SignError::ZkSigningError(e)),
    }
}

/// Resolves how agreement is proved, attaches the proof to the transaction, and signs it.
///
/// On layer one nothing is computed. With an Ethereum signature the owner's key signs the
/// typed data of the change. With CREATE2 the address derived for the signer's public key
/// must be the address of the account, or the whole operation fails with
/// `AuthorizationMismatch`.
pub fn sign_change_pubkey(
    params: &CryptoParams,
    eth_signer: &PrivateKeySigner,
    zklink_signer: &ZkLinkSigner,
    tx: ChangePubKey,
    main_contract: ZkLinkAddress,
    l1_client_id: u32,
    account_address: ZkLinkAddress,
    auth_request: ChangePubKeyAuthRequest,
) -> (r: Result<TxSignature, SignError>)
    requires
        tx@.encodable(),
    ensures
        match r {
            Ok(signed) => signed.eth_signature is None && signed_change_pubkey(
                auth_request,
                eth_signer.private_key(),
                zklink_signer.private_key(),
                tx@,
                main_contract@,
                l1_client_id as nat,
                account_address@,
            ) == Ok::<ChangePubKeyView, SignError>(signed.tx@),
            Err(e) => signed_change_pubkey(
                auth_request,
                eth_signer.private_key(),
                zklink_signer.private_key(),
                tx@,
                main_contract@,
                l1_client_id as nat,
                account_address@,
            ) == Err::<ChangePubKeyView, SignError>(e),
        },
{
    let eth_auth_data = match auth_request {
        ChangePubKeyAuthRequest::OnChain => ChangePubKeyAuthData::OnChain,
        ChangePubKeyAuthRequest::EthECDSA => {
            match eth_signature_of_change_pubkey(l1_client_id, &tx, eth_signer, &main_contract) {
                Ok(eth_signature) => ChangePubKeyAuthData::EthECDSA { eth_signature },
                Err(e) => {
                    return Err(e);
                },
            }
        },
        ChangePubKeyAuthRequest::EthCreate2 { data } => {
            match check_create2data(params, zklink_signer, &data, &account_address) {
                Ok(_) => ChangePubKeyAuthData::EthCreate2 { data },
                Err(e) => {
                    return Err(e);
                },
            }
        },
    };
    match create_signed_change_pubkey(params, zklink_signer, tx, eth_auth_data) {
        Ok(tx) => Ok(TxSignature { tx: ZkLinkTx::ChangePubKey(tx), eth_signature: None }),
        Err(e) => Err(e),
    }
}

} // verus!
