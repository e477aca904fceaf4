//! The signer: a private key, and what is made with it.
use crate::bytes::array_from;
use crate::crypto::error::ZkSignerError;
use crate::crypto::primitives::{generator_mul, is_curve_point, scalar_is_valid, CryptoParams};
use crate::crypto::signature::{PackedPublicKey, ZkLinkSignature};
use crate::crypto::{
    is_private_key, public_key_of, reversed, sign_musig, signature_of, verification,
    MAX_MESSAGE_BYTES,
};
use vstd::prelude::*;

verus! {

/// Holds a private key of the signature scheme. Every signer holds a valid one.
pub struct ZkLinkSigner {
    key: [u8; 32],
}

impl ZkLinkSigner {
    #[verifier::type_invariant]
    spec fn holds_a_scalar(self) -> bool {
        is_private_key(self.key@)
    }

    /// The private key, 32 bytes big-endian.
    pub closed spec fn private_key(&self) -> Seq<u8> {
        self.key@
    }

    /// Makes a signer from a private key of 32 big-endian bytes.
    ///
    /// Fails with `InvalidPrivKey` exactly when the bytes are not 32 or do not stand for a
    /// scalar of the curve.
    pub fn new_from_bytes(bytes: &[u8]) -> (r: Result<ZkLinkSigner, ZkSignerError>)
        ensures
            match r {
                Ok(signer) => is_private_key(bytes@) && signer.private_key() == bytes@,
                Err(e) => !is_private_key(bytes@) && e == ZkSignerError::InvalidPrivKey,
            },
    {
        if bytes.len() != 32 {
            return Err(ZkSignerError::InvalidPrivKey);
        }
        let key: [u8; 32] = array_from(bytes, 0);
        let little_endian = reversed(bytes);
        assert(key@ =~= bytes@);
        assert(little_endian@.reverse() =~= bytes@);
        if !scalar_is_valid(&little_endian) {
            return Err(ZkSignerError::InvalidPrivKey);
        }
        Ok(ZkLinkSigner { key })
    }

    /// The public key that signatures of this signer verify under.
    pub fn public_key(&self, params: &CryptoParams) -> (key: PackedPublicKey)
        ensures
            key@ == public_key_of(self.private_key()),
            is_curve_point(key@),
    {
        proof {
            use_type_invariant(self);
            use_type_invariant(params);
        }
        let little_endian = reversed(self.key.as_slice());
        assert(little_endian@.reverse() =~= self.key@);
        PackedPublicKey { data: generator_mul(&little_endian, params) }
    }

    /// Signs `msg`. The result is the signature of `msg` under the signer's key, and
    /// verifying it is never an error. A signer can sign every message of at most 8064 bytes;
    /// a longer one is refused with `MessageTooLong`.
    pub fn sign_musig(&self, params: &CryptoParams, msg: &[u8]) -> (r: Result<
        ZkLinkSignature,
        ZkSignerError,
    >)
        ensures
            match r {
                Ok(signature) => msg@.len() <= MAX_MESSAGE_BYTES && signature@ == signature_of(
                    self.private_key(),
                    msg@,
                ) && forall|other: Seq<u8>| (#[trigger] verification(other, signature@)) is Ok,
                Err(e) => msg@.len() > MAX_MESSAGE_BYTES && e == ZkSignerError::MessageTooLong,
            },
    {
        proof {
            use_type_invariant(self);
        }
        match sign_musig(params, self.key.as_slice(), msg) {
            Ok(bytes) => ZkLinkSignature::from_bytes(bytes.as_slice()),
            Err(e) => Err(e),
        }
    }
}

} // verus!
