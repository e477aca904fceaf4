use vstd::prelude::*;

verus! {

/// Why a key or a signature was refused.
#[derive(Debug, Clone, Copy, PartialEq, Eq)]
pub enum ZkSignerError {
    /// The bytes are not as many as the value holds.
    SizeMismatch,
    /// The private key is not a scalar of the curve.
    InvalidPrivKey,
    /// The public key is not a point of the curve.
    InvalidPubkey,
    /// The signature's `R` is not a point of the curve, or its `S` is not a scalar.
    InvalidSignature,
    /// The message is longer than the hash takes.
    MessageTooLong,
}

} // verus!
