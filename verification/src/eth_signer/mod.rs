//! Signing with an Ethereum key.
//!
//! The ECDSA signature itself is made by `k256`; this module frames its result as the 65
//! bytes that Ethereum expects, `r`, `s` and the recovery byte `v`.
pub mod eip712;

use crate::basic_types::h256::H256;
use crate::basic_types::hash_string::{prefixed_hex, to_prefixed_hex};
use crate::eth_signer::eip712::EIP712TypedData;
use vstd::prelude::*;

verus! {

/// Why a signature with an Ethereum key could not be made.
#[derive(Debug, Clone, Copy, PartialEq, Eq)]
pub enum EthSignerError {
    /// The bytes are not a private key of the curve, or the digest could not be signed.
    SigningFailed,
}

/// An Ethereum signature, 65 bytes: `r`, `s`, and `v`, which is 27 or more.
#[derive(Debug, Clone, Copy, PartialEq, Eq)]
pub struct PackedEthSignature {
    pub data: [u8; 65],
}

impl View for PackedEthSignature {
    type V = Seq<u8>;

    open spec fn view(&self) -> Seq<u8> {
        self.data@
    }
}

/// An Ethereum private key.
pub struct PrivateKeySigner {
    key: [u8; 32],
}

/// The ECDSA signature of a 32-byte digest under a private key: the 64 bytes of `r` and `s`
/// and the recovery id, or `None` where the key is not one of the curve.
pub uninterp spec fn ecdsa_signature(key: Seq<u8>, digest: Seq<u8>) -> Option<(Seq<u8>, u8)>;

/// The 65 bytes of an Ethereum signature: `r` and `s`, then the recovery id raised by 27.
pub open spec fn packed_eth_signature(signature: Seq<u8>, recovery_id: u8) -> Seq<u8> {
    signature.push((recovery_id + 27) as u8)
}

/// What signing `digest` with `key` gives.
pub open spec fn eth_signature_of(key: Seq<u8>, digest: Seq<u8>) -> Result<
    Seq<u8>,
    EthSignerError,
> {
    match ecdsa_signature(key, digest) {
        Some((signature, recovery_id)) => Ok(packed_eth_signature(signature, recovery_id)),
        None => Err(EthSignerError::SigningFailed),
    }
}

/// `SigningKey::from_slice` and `SigningKey::sign_prehash_recoverable` of `k256`: the
/// deterministic ECDSA signature of a digest, with its recovery id. The result is named; a
/// recovery id is at most 3.
#[verifier::external_body]
pub(crate) fn ecdsa_sign_prehash(key: &[u8; 32], digest: &[u8; 32]) -> (r: Option<([u8; 64], u8)>)
    ensures
        match r {
            Some(parts) => ecdsa_signature(key@, digest@) == Some((parts.0@, parts.1))
                && parts.1 <= 3,
            None => ecdsa_signature(key@, digest@) is None,
        },
{
    let signing_key = k256::ecdsa::SigningKey::from_slice(&key[..]).ok()?;
    let (signature, recovery_id) = signing_key.sign_prehash_recoverable(&digest[..]).ok()?;
    let mut out = [0u8; 64];
    out.copy_from_slice(&signature.to_bytes());
    Some((out, recovery_id.to_byte()))
}

impl PackedEthSignature {
    /// Frames `r`, `s` and a recovery id as the 65 bytes of an Ethereum signature.
    pub fn from_parts(signature: &[u8; 64], recovery_id: u8) -> (packed: PackedEthSignature)
        requires
            recovery_id <= 3,
        ensures
            packed@ == packed_eth_signature(signature@, recovery_id),
    {
        let mut data: [u8; 65] = [0u8; 65];
        let mut i: usize = 0;
        while i < 64
            invariant
                i <= 64,
                forall|j: int| 0 <= j < i ==> data@[j] == signature@[j],
            decreases 64 - i,
        {
            data[i] = signature[i];
            i = i + 1;
        }
        data[64] = recovery_id + 27;
        let packed = PackedEthSignature { data };
        assert(packed@ =~= packed_eth_signature(signature@, recovery_id));
        packed
    }

    /// The 65 bytes of the signature.
    pub fn as_bytes(&self) -> (bytes: &[u8])
        ensures
            bytes@ == self@,
    {
        self.data.as_slice()
    }

    /// The signature as `0x` and 130 lower-case hex digits.
    pub fn as_hex(&self) -> (s: String)
        ensures
            s@ == prefixed_hex(self@),
    {
        to_prefixed_hex(self.data.as_slice())
    }
}

impl PrivateKeySigner {
    /// The private key, 32 bytes.
    pub closed spec fn private_key(&self) -> Seq<u8> {
        self.key@
    }

    /// Makes a signer from the 32 bytes of a private key.
    pub fn new(key: H256) -> (signer: PrivateKeySigner)
        ensures
            signer.private_key() == key@,
    {
        PrivateKeySigner { key: key.data }
    }

    /// Signs a 32-byte digest.
    pub fn sign_byted_data(&self, digest: &H256) -> (r: Result<PackedEthSignature, EthSignerError>)
        ensures
            match r {
                Ok(signature) => eth_signature_of(self.private_key(), digest@) == Ok::<
                    Seq<u8>,
                    EthSignerError,
                >(signature@),
                Err(e) => eth_signature_of(self.private_key(), digest@) == Err::<
                    Seq<u8>,
                    EthSignerError,
                >(e),
            },
    {
        match ecdsa_sign_prehash(&self.key, &digest.data) {
            Some(parts) => Ok(PackedEthSignature::from_parts(&parts.0, parts.1)),
            None => Err(EthSignerError::SigningFailed),
        }
    }

    /// Signs typed data: the signature of its digest.
    pub fn sign_typed_data(&self, typed_data: &EIP712TypedData) -> (r: Result<
        PackedEthSignature,
        EthSignerError,
    >)
        ensures
            match r {
                Ok(signature) => eth_signature_of(self.private_key(), typed_data.data_hash@)
                    == Ok::<Seq<u8>, EthSignerError>(signature@),
                Err(e) => eth_signature_of(self.private_key(), typed_data.data_hash@) == Err::<
                    Seq<u8>,
                    EthSignerError,
                >(e),
            },
    {
        self.sign_byted_data(&typed_data.data_hash)
    }
}

} // verus!
