//! The two byte hashes of the protocol, SHA-256 and Keccak-256.
//!
//! Both are computed by the crates of RustCrypto. What a digest is, is not stated here: each
//! is given a name, and the contracts of this library say which bytes are hashed.
use sha2::Digest;
use vstd::prelude::*;

verus! {

/// The SHA-256 digest of `data`.
pub uninterp spec fn sha256(data: Seq<u8>) -> Seq<u8>;

/// The Keccak-256 digest of `data`.
pub uninterp spec fn keccak256(data: Seq<u8>) -> Seq<u8>;

/// `sha2::Sha256::digest`. The result is named.
#[verifier::external_body]
pub(crate) fn sha256_digest(data: &[u8]) -> (digest: [u8; 32])
    ensures
        digest@ == sha256(data@),
{
    sha2::Sha256::digest(data).into()
}

/// `sha3::Keccak256::digest`. The result is named.
#[verifier::external_body]
pub(crate) fn keccak256_digest(data: &[u8]) -> (digest: [u8; 32])
    ensures
        digest@ == keccak256(data@),
{
    sha3::Keccak256::digest(data).into()
}

/// The SHA-256 digest of `input`, 32 bytes.
pub fn sha256_bytes(input: &[u8]) -> (digest: Vec<u8>)
    ensures
        digest@ == sha256(input@),
        digest@.len() == 32,
{
    let digest = sha256_digest(input);
    let mut out: Vec<u8> = Vec::new();
    crate::bytes::extend(&mut out, digest.as_slice());
    out
}

} // verus!
