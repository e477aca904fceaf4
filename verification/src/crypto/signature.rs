//! The wire forms of keys and signatures.
use crate::bytes::{array_from, extend, zero_bytes};
use crate::basic_types::error::TypeError;
use crate::basic_types::hash_string::{
    parse_prefixed_hex, parsed_hex, prefixed_hex, to_prefixed_hex,
};
use crate::crypto::error::ZkSignerError;
use crate::crypto::primitives::{is_curve_point, point_is_valid, CryptoParams};
use crate::crypto::{pub_key_hash, public_key_hash_of, verification, verify_musig};
use vstd::prelude::*;

verus! {

/// A public key: a point of the curve, compressed to 32 bytes.
#[derive(Debug, Clone, Copy, PartialEq, Eq)]
pub struct PackedPublicKey {
    pub data: [u8; 32],
}

/// The two parts of a signature, `R` and then `S`, 64 bytes.
#[derive(Debug, Clone, Copy, PartialEq, Eq)]
pub struct PackedSignature {
    pub data: [u8; 64],
}

/// A signature together with the public key that it verifies under, 96 bytes on the wire.
#[derive(Debug, Clone, Copy, PartialEq, Eq)]
pub struct ZkLinkSignature {
    pub pub_key: PackedPublicKey,
    pub signature: PackedSignature,
}

/// The hash of a public key, 20 bytes.
#[derive(Debug, Clone, Copy, PartialEq, Eq)]
pub struct PubKeyHash {
    pub data: [u8; 20],
}

impl View for PackedPublicKey {
    type V = Seq<u8>;

    open spec fn view(&self) -> Seq<u8> {
        self.data@
    }
}

impl View for PackedSignature {
    type V = Seq<u8>;

    open spec fn view(&self) -> Seq<u8> {
        self.data@
    }
}

impl View for PubKeyHash {
    type V = Seq<u8>;

    open spec fn view(&self) -> Seq<u8> {
        self.data@
    }
}

impl View for ZkLinkSignature {
    type V = Seq<u8>;

    /// The 96 bytes on the wire: public key, then `R`, then `S`.
    open spec fn view(&self) -> Seq<u8> {
        self.pub_key@ + self.signature@
    }
}

impl Default for ZkLinkSignature {
    /// The empty signature: 96 zero bytes.
    fn default() -> (r: ZkLinkSignature)
        ensures
            r@ == zero_bytes(96),
    {
        let r = ZkLinkSignature {
            pub_key: PackedPublicKey { data: [0u8; 32] },
            signature: PackedSignature { data: [0u8; 64] },
        };
        assert(r@ =~= zero_bytes(96));
        r
    }
}

impl PackedPublicKey {
    /// Reads a public key from 32 bytes.
    ///
    /// Fails with `SizeMismatch` unless there are 32 bytes, and with `InvalidPubkey` when they
    /// are not a point of the curve.
    pub fn from_bytes(params: &CryptoParams, bytes: &[u8]) -> (r: Result<
        PackedPublicKey,
        ZkSignerError,
    >)
        ensures
            match r {
                Ok(key) => key@ == bytes@ && is_curve_point(bytes@),
                Err(e) => if bytes@.len() != 32 {
                    e == ZkSignerError::SizeMismatch
                } else {
                    e == ZkSignerError::InvalidPubkey && !is_curve_point(bytes@)
                },
            },
    {
        proof {
            use_type_invariant(params);
        }
        if bytes.len() != 32 {
            return Err(ZkSignerError::SizeMismatch);
        }
        let data: [u8; 32] = array_from(bytes, 0);
        assert(data@ =~= bytes@);
        if !point_is_valid(&data, params) {
            return Err(ZkSignerError::InvalidPubkey);
        }
        Ok(PackedPublicKey { data })
    }

    /// The 32 bytes of the key.
    pub fn as_bytes(&self) -> (bytes: &[u8])
        ensures
            bytes@ == self@,
    {
        self.data.as_slice()
    }

    /// The key as `0x` and 64 lower-case hex digits.
    pub fn as_hex(&self) -> (s: String)
        ensures
            s@ == prefixed_hex(self@),
    {
        to_prefixed_hex(self.data.as_slice())
    }

    /// Reads a public key from `0x` and 64 hex digits.
    ///
    /// Fails with `InvalidPubkey` when the string is not of that form or the bytes are not
    /// a point of the curve, and with `SizeMismatch` when the digits do not make 32 bytes.
    pub fn from_hex(params: &CryptoParams, s: &str) -> (r: Result<PackedPublicKey, ZkSignerError>)
        ensures
            match r {
                Ok(key) => parsed_hex(s@, 32) == Ok::<Seq<u8>, TypeError>(key@) && is_curve_point(
                    key@,
                ),
                Err(e) => match parsed_hex(s@, 32) {
                    Ok(bytes) => e == ZkSignerError::InvalidPubkey && !is_curve_point(bytes),
                    Err(TypeError::SizeMismatch) => e == ZkSignerError::SizeMismatch,
                    Err(_) => e == ZkSignerError::InvalidPubkey,
                },
            },
    {
        match parse_prefixed_hex(s) {
            Err(_) => Err(ZkSignerError::InvalidPubkey),
            Ok(bytes) => PackedPublicKey::from_bytes(params, bytes.as_slice()),
        }
    }

    /// The hash of the key, or `InvalidPubkey` when the bytes are not a point of the curve.
    pub fn public_key_hash(&self, params: &CryptoParams) -> (r: Result<PubKeyHash, ZkSignerError>)
        ensures
            match r {
                Ok(hash) => is_curve_point(self@) && hash@ == public_key_hash_of(self@),
                Err(e) => !is_curve_point(self@) && e == ZkSignerError::InvalidPubkey,
            },
    {
        match pub_key_hash(params, self.data.as_slice()) {
            Ok(hash) => {
                let data: [u8; 20] = array_from(hash.as_slice(), 0);
                assert(data@ =~= hash@);
                Ok(PubKeyHash { data })
            },
            Err(e) => Err(e),
        }
    }
}

impl PackedSignature {
    /// Reads `R` and `S` from their 64 bytes; `SizeMismatch` for any other number.
    pub fn from_bytes(bytes: &[u8]) -> (r: Result<PackedSignature, ZkSignerError>)
        ensures
            match r {
                Ok(signature) => signature@ == bytes@,
                Err(e) => bytes@.len() != 64 && e == ZkSignerError::SizeMismatch,
            },
            bytes@.len() == 64 ==> r is Ok,
    {
        if bytes.len() != 64 {
            return Err(ZkSignerError::SizeMismatch);
        }
        let signature = PackedSignature { data: array_from(bytes, 0) };
        assert(signature@ =~= bytes@);
        Ok(signature)
    }

    /// The 64 bytes of the signature.
    pub fn as_bytes(&self) -> (bytes: &[u8])
        ensures
            bytes@ == self@,
    {
        self.data.as_slice()
    }

    /// The signature as `0x` and 128 lower-case hex digits.
    pub fn as_hex(&self) -> (s: String)
        ensures
            s@ == prefixed_hex(self@),
    {
        to_prefixed_hex(self.data.as_slice())
    }

    /// Reads a signature from `0x` and 128 hex digits.
    pub fn from_hex(s: &str) -> (r: Result<PackedSignature, TypeError>)
        ensures
            match r {
                Ok(signature) => parsed_hex(s@, 64) == Ok::<Seq<u8>, TypeError>(signature@),
                Err(e) => parsed_hex(s@, 64) == Err::<Seq<u8>, TypeError>(e),
            },
    {
        match parse_prefixed_hex(s) {
            Err(e) => Err(e),
            Ok(bytes) => match PackedSignature::from_bytes(bytes.as_slice()) {
                Ok(signature) => Ok(signature),
                Err(_) => Err(TypeError::SizeMismatch),
            },
        }
    }
}

impl PubKeyHash {
    /// Makes a hash of exactly 20 bytes; `SizeMismatch` for any other number.
    pub fn from_bytes(bytes: &[u8]) -> (r: Result<PubKeyHash, TypeError>)
        ensures
            match r {
                Ok(hash) => hash@ == bytes@,
                Err(e) => bytes@.len() != 20 && e == TypeError::SizeMismatch,
            },
            bytes@.len() == 20 ==> r is Ok,
    {
        if bytes.len() != 20 {
            return Err(TypeError::SizeMismatch);
        }
        let hash = PubKeyHash { data: array_from(bytes, 0) };
        assert(hash@ =~= bytes@);
        Ok(hash)
    }

    /// Reads a hash from `0x` and 40 hex digits.
    pub fn from_hex(s: &str) -> (r: Result<PubKeyHash, TypeError>)
        ensures
            match r {
                Ok(hash) => parsed_hex(s@, 20) == Ok::<Seq<u8>, TypeError>(hash@),
                Err(e) => parsed_hex(s@, 20) == Err::<Seq<u8>, TypeError>(e),
            },
    {
        match parse_prefixed_hex(s) {
            Err(e) => Err(e),
            Ok(bytes) => PubKeyHash::from_bytes(bytes.as_slice()),
        }
    }

    /// The 20 bytes of the hash.
    pub fn as_bytes(&self) -> (bytes: &[u8])
        ensures
            bytes@ == self@,
    {
        self.data.as_slice()
    }

    /// The hash as `0x` and 40 lower-case hex digits.
    pub fn as_hex(&self) -> (s: String)
        ensures
            s@ == prefixed_hex(self@),
    {
        to_prefixed_hex(self.data.as_slice())
    }
}

impl ZkLinkSignature {
    /// Reads a signature from its 96 bytes; `SizeMismatch` for any other number.
    pub fn from_bytes(bytes: &[u8]) -> (r: Result<ZkLinkSignature, ZkSignerError>)
        ensures
            match r {
                Ok(signature) => signature@ == bytes@,
                Err(e) => bytes@.len() != 96 && e == ZkSignerError::SizeMismatch,
            },
            bytes@.len() == 96 ==> r is Ok,
    {
        if bytes.len() != 96 {
            return Err(ZkSignerError::SizeMismatch);
        }
        let signature = ZkLinkSignature {
            pub_key: PackedPublicKey { data: array_from(bytes, 0) },
            signature: PackedSignature { data: array_from(bytes, 32) },
        };
        assert(signature@ =~= bytes@);
        Ok(signature)
    }

    /// The 96 bytes on the wire.
    pub fn as_bytes(&self) -> (bytes: Vec<u8>)
        ensures
            bytes@ == self@,
    {
        let mut bytes: Vec<u8> = Vec::new();
        extend(&mut bytes, self.pub_key.data.as_slice());
        extend(&mut bytes, self.signature.data.as_slice());
        bytes
    }

    /// The signature as `0x` and 192 lower-case hex digits.
    pub fn as_hex(&self) -> (s: String)
        ensures
            s@ == prefixed_hex(self@),
    {
        let bytes = self.as_bytes();
        to_prefixed_hex(bytes.as_slice())
    }

    /// Reads a signature from `0x` and 192 hex digits.
    pub fn from_hex(s: &str) -> (r: Result<ZkLinkSignature, TypeError>)
        ensures
            match r {
                Ok(signature) => parsed_hex(s@, 96) == Ok::<Seq<u8>, TypeError>(signature@),
                Err(e) => parsed_hex(s@, 96) == Err::<Seq<u8>, TypeError>(e),
            },
    {
        match parse_prefixed_hex(s) {
            Err(e) => Err(e),
            Ok(bytes) => match ZkLinkSignature::from_bytes(bytes.as_slice()) {
                Ok(signature) => Ok(signature),
                Err(_) => Err(TypeError::SizeMismatch),
            },
        }
    }

    /// Verifies the signature against `msg`.
    ///
    /// A signature that is well formed but does not fit `msg` gives `Ok(false)`; one whose
    /// public key or parts are malformed gives the error that says which.
    pub fn verify_musig(&self, params: &CryptoParams, msg: &[u8]) -> (r: Result<
        bool,
        ZkSignerError,
    >)
        ensures
            r == verification(msg@, self@),
    {
        let bytes = self.as_bytes();
        verify_musig(params, msg, bytes.as_slice())
    }
}

} // verus!
