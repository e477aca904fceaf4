//! The signature engine: Schnorr signatures over the curve, with Rescue as the hash.
//!
//! A signature is 96 bytes: the signer's public key, the commitment `R`, and the response `S`.
//! Signing is deterministic. Verification tells a malformed signature, which is an error, from
//! a well-formed one that does not fit the message, which is `false`.
pub mod digest;
pub mod error;
pub mod pk_signer;
pub mod primitives;
pub mod signature;

use crate::basic_types::params::ORDERS_BYTES;
use crate::bytes::{
    array_from, be_bytes, be_value, extend, lemma_be_bytes_of_be_value, lemma_pow_nat_monotone,
    pow_nat, same_bytes,
};
use crate::crypto::error::ZkSignerError;
use crate::crypto::primitives::{
    base_mul, curve_add, curve_mul, generator_mul, is_curve_point, is_scalar, le_value,
    point_add, point_is_valid, point_mul, point_x, point_x_bytes, rescue_digest,
    rescue_hash_bits, rescue_hash_point, rescue_point_digest, rescue_scalar, rescue_to_scalar,
    scalar_add, scalar_is_valid, scalar_modulus, scalar_mul, sha256_scalar, sha256_to_scalar,
    CryptoParams,
};
use vstd::prelude::*;

verus! {

/// Bytes of a packed point.
pub const PACKED_POINT_SIZE: usize = 32;

/// Bytes of a packed signature, `R` and `S`.
pub const PACKED_SIGNATURE_SIZE: usize = 64;

/// Bits that a shorter message is zero-filled to before it is hashed for signing.
pub const PAD_MSG_BEFORE_HASH_BITS_LEN: usize = 736;

/// Bytes of the longest message that the hash takes.
pub const MAX_MESSAGE_BYTES: usize = 8064;

/// Bytes of a public key hash.
pub const PUBKEY_HASH_SIZE: usize = 20;

/// Bit `j` of a byte, counted from the most significant.
pub open spec fn bit_of(byte: u8, j: nat) -> bool
    recommends
        j < 8,
{
    (byte as nat / pow_nat(2, (7 - j) as nat)) % 2 == 1
}

/// The bits of `bytes`, eight for each byte, most significant first.
pub open spec fn be_bits(bytes: Seq<u8>) -> Seq<bool> {
    Seq::new(8 * bytes.len(), |k: int| bit_of(bytes[k / 8], (k % 8) as nat))
}

/// `bits` cut or filled with `false` at the end so that it holds exactly `n` bits.
pub open spec fn resized_bits(bits: Seq<bool>, n: nat) -> Seq<bool> {
    Seq::new(n, |k: int| if k < bits.len() { bits[k] } else { false })
}

/// The bits of a message that are hashed: all of them, and zeros after them where they are
/// fewer than 736.
pub open spec fn message_bits(msg: Seq<u8>) -> Seq<bool> {
    if 8 * msg.len() >= PAD_MSG_BEFORE_HASH_BITS_LEN {
        be_bits(msg)
    } else {
        resized_bits(be_bits(msg), PAD_MSG_BEFORE_HASH_BITS_LEN as nat)
    }
}

/// The digest that is signed in place of a message: the Rescue hash of its bits.
pub open spec fn tx_msg_digest(msg: Seq<u8>) -> Seq<u8> {
    rescue_digest(message_bits(msg))
}

/// The commitment to a block of two orders: the Rescue hash of all its bits.
pub open spec fn orders_digest(msg: Seq<u8>) -> Seq<u8> {
    rescue_digest(be_bits(msg))
}

/// `n` low-order base-256 digits of `v`, least significant first.
pub open spec fn le_bytes(v: nat, n: nat) -> Seq<u8> {
    be_bytes(v, n).reverse()
}

/// A private key: 32 bytes, big-endian, below the order of the group.
pub open spec fn is_private_key(bytes: Seq<u8>) -> bool {
    bytes.len() == 32 && be_value(bytes) < scalar_modulus()
}

/// The public key of a private key: the generator times the key.
pub open spec fn public_key_of(private_key: Seq<u8>) -> Seq<u8> {
    base_mul(private_key.reverse())
}

/// The challenge of a signature: a scalar drawn from the `x` coordinates of the public key
/// and of `R`, and from the digest.
pub open spec fn challenge(public_key: Seq<u8>, r: Seq<u8>, digest: Seq<u8>) -> Seq<u8> {
    rescue_scalar(point_x(public_key) + point_x(r), digest)
}

/// The secret nonce of a signature, drawn from the private key and the digest alone.
pub open spec fn nonce_of(private_key: Seq<u8>, digest: Seq<u8>) -> Seq<u8> {
    sha256_scalar(private_key, digest)
}

/// The signature of `msg` under `private_key`: public key, then `R = nonce * G`, then
/// `S = challenge * key + nonce` modulo the order of the group.
pub open spec fn signature_of(private_key: Seq<u8>, msg: Seq<u8>) -> Seq<u8> {
    let key = private_key.reverse();
    let digest = tx_msg_digest(msg);
    let nonce = nonce_of(private_key, digest);
    let public_key = base_mul(key);
    let r = base_mul(nonce);
    let c = challenge(public_key, r, digest);
    let s = le_bytes((le_value(c) * le_value(key) + le_value(nonce)) % scalar_modulus(), 32);
    public_key + r + s
}

/// What signing `msg` with `private_key` gives: the signature, or `InvalidPrivKey` when the
/// key is not one, or `MessageTooLong` when the message is longer than the hash takes.
pub open spec fn signing(private_key: Seq<u8>, msg: Seq<u8>) -> Result<Seq<u8>, ZkSignerError> {
    if !is_private_key(private_key) {
        Err(ZkSignerError::InvalidPrivKey)
    } else if msg.len() > MAX_MESSAGE_BYTES {
        Err(ZkSignerError::MessageTooLong)
    } else {
        Ok(signature_of(private_key, msg))
    }
}

/// The equation that a signature satisfies: `S * G == challenge * public_key + R`.
pub open spec fn signature_holds(public_key: Seq<u8>, r: Seq<u8>, s: Seq<u8>, digest: Seq<u8>) -> bool {
    base_mul(s) == curve_add(curve_mul(public_key, challenge(public_key, r, digest)), r)
}

/// What verifying `signature` against `msg` gives. A message that is too long to be signed
/// has no signature that fits it.
pub open spec fn verification(msg: Seq<u8>, signature: Seq<u8>) -> Result<bool, ZkSignerError> {
    let public_key = signature.subrange(0, 32);
    let r = signature.subrange(32, 64);
    let s = signature.subrange(64, 96);
    if signature.len() != 96 {
        Err(ZkSignerError::SizeMismatch)
    } else if !is_curve_point(public_key) {
        Err(ZkSignerError::InvalidPubkey)
    } else if !is_curve_point(r) || !is_scalar(s) {
        Err(ZkSignerError::InvalidSignature)
    } else if msg.len() > MAX_MESSAGE_BYTES {
        Ok(false)
    } else {
        Ok(signature_holds(public_key, r, s, tx_msg_digest(msg)))
    }
}

/// The hash of a public key: the low 160 bits of the Rescue hash of its coordinates, most
/// significant byte first.
pub open spec fn public_key_hash_of(public_key: Seq<u8>) -> Seq<u8> {
    rescue_point_digest(public_key).subrange(0, PUBKEY_HASH_SIZE as int).reverse()
}

/// A little-endian byte string is the little-endian form of its number.
pub proof fn lemma_le_bytes_of_le_value(bytes: Seq<u8>)
    ensures
        le_bytes(le_value(bytes), bytes.len()) == bytes,
{
    lemma_be_bytes_of_be_value(bytes.reverse());
    assert(bytes.reverse().reverse() =~= bytes);
}

/// Signing is deterministic: two signatures of one message under one key are the same bytes.
pub proof fn law_signing_is_deterministic(
    private_key: Seq<u8>,
    msg: Seq<u8>,
    first: Seq<u8>,
    second: Seq<u8>,
)
    requires
        signing(private_key, msg) == Ok::<Seq<u8>, ZkSignerError>(first),
        signing(private_key, msg) == Ok::<Seq<u8>, ZkSignerError>(second),
    ensures
        first == second,
{
}

/// A signature of any length but 96 is refused for its length, whatever it holds.
pub proof fn law_signature_length_is_checked(msg: Seq<u8>, signature: Seq<u8>)
    requires
        signature.len() != 96,
    ensures
        verification(msg, signature) == Err::<bool, ZkSignerError>(ZkSignerError::SizeMismatch),
{
}

/// A signature whose three parts are well formed is never an error: it fits the message or
/// it does not.
pub proof fn law_well_formed_signature_is_judged(msg: Seq<u8>, signature: Seq<u8>)
    requires
        signature.len() == 96,
        is_curve_point(signature.subrange(0, 32)),
        is_curve_point(signature.subrange(32, 64)),
        is_scalar(signature.subrange(64, 96)),
    ensures
        verification(msg, signature) is Ok,
{
}

/// Computes the parameters of the curve and of the hash: those of the protocol, the same at
/// every call. Do this once.
pub fn zksync_crypto_init() -> (params: CryptoParams)
    ensures
        params.are_of_the_protocol(),
{
    CryptoParams::new()
}

/// Bit `j` of `byte`, counted from the most significant.
fn bit_at(byte: u8, j: usize) -> (bit: bool)
    requires
        j < 8,
    ensures
        bit == bit_of(byte, j as nat),
{
    let mut weight: u8 = 1;
    let mut i: usize = 0;
    while i < 7 - j
        invariant
            j < 8,
            i <= 7 - j,
            weight as nat == pow_nat(2, i as nat),
            1 <= weight <= 128,
        decreases 7 - j - i,
    {
        proof {
            lemma_pow_nat_monotone(2, (i + 1) as nat, 7);
            assert(pow_nat(2, 7) == 128) by {
                reveal_with_fuel(pow_nat, 8);
            }
        }
        weight = weight * 2;
        i = i + 1;
    }
    (byte / weight) % 2 == 1
}

/// The first `n` bits of `bytes`, most significant bit of each byte first, filled with
/// `false` where `bytes` ends before them.
fn bits_resized(bytes: &[u8], n: usize) -> (bits: Vec<bool>)
    ensures
        bits@ == resized_bits(be_bits(bytes@), n as nat),
{
    let mut bits: Vec<bool> = Vec::new();
    let mut k: usize = 0;
    while k < n
        invariant
            k <= n,
            bits@.len() == k,
            forall|i: int| 0 <= i < k ==> bits@[i] == resized_bits(be_bits(bytes@), n as nat)[i],
        decreases n - k,
    {
        let bit = if k / 8 < bytes.len() {
            bit_at(bytes[k / 8], k % 8)
        } else {
            false
        };
        bits.push(bit);
        k = k + 1;
    }
    assert(bits@ =~= resized_bits(be_bits(bytes@), n as nat));
    bits
}

/// The digest of a message that is signed in its place. The hash takes no more than 8064
/// bytes.
pub fn rescue_hash_tx_msg(params: &CryptoParams, msg: &[u8]) -> (digest: Vec<u8>)
    requires
        msg@.len() <= MAX_MESSAGE_BYTES,
    ensures
        digest@ == tx_msg_digest(msg@),
        digest@.len() == 32,
{
    proof {
        use_type_invariant(params);
    }
    let width: usize = if msg.len() * 8 >= PAD_MSG_BEFORE_HASH_BITS_LEN {
        msg.len() * 8
    } else {
        PAD_MSG_BEFORE_HASH_BITS_LEN
    };
    let bits = bits_resized(msg, width);
    assert(bits@ =~= message_bits(msg@));
    let hash = rescue_hash_bits(bits.as_slice(), params);
    let mut digest: Vec<u8> = Vec::new();
    extend(&mut digest, hash.as_slice());
    digest
}

/// The commitment to two orders. `msg` is their two canonical forms one after the other,
/// filled up to 178 bytes.
pub fn rescue_hash_orders(params: &CryptoParams, msg: &[u8]) -> (digest: Vec<u8>)
    requires
        msg@.len() == ORDERS_BYTES,
    ensures
        digest@ == orders_digest(msg@),
        digest@.len() == 32,
{
    proof {
        use_type_invariant(params);
    }
    let bits = bits_resized(msg, ORDERS_BYTES * 8);
    assert(bits@ =~= be_bits(msg@));
    let hash = rescue_hash_bits(bits.as_slice(), params);
    let mut digest: Vec<u8> = Vec::new();
    extend(&mut digest, hash.as_slice());
    digest
}

/// The 32 bytes of `bytes` in reverse order.
pub(crate) fn reversed(bytes: &[u8]) -> (a: [u8; 32])
    requires
        bytes@.len() == 32,
    ensures
        a@ == bytes@.reverse(),
{
    let mut a: [u8; 32] = [0u8; 32];
    let mut i: usize = 0;
    while i < 32
        invariant
            i <= 32,
            bytes@.len() == 32,
            forall|j: int| 0 <= j < i ==> a@[j] == bytes@[31 - j],
        decreases 32 - i,
    {
        a[i] = bytes[31 - i];
        i = i + 1;
    }
    assert(a@ =~= bytes@.reverse());
    a
}

/// The hash of a packed public key, 20 bytes.
///
/// Fails with `SizeMismatch` unless `pubkey` holds 32 bytes, and with `InvalidPubkey` when
/// they are not a point of the curve.
pub fn pub_key_hash(params: &CryptoParams, pubkey: &[u8]) -> (r: Result<Vec<u8>, ZkSignerError>)
    ensures
        match r {
            Ok(hash) => pubkey@.len() == 32 && is_curve_point(pubkey@) && hash@
                == public_key_hash_of(pubkey@) && hash@.len() == 20,
            Err(e) => if pubkey@.len() != 32 {
                e == ZkSignerError::SizeMismatch
            } else {
                !is_curve_point(pubkey@) && e == ZkSignerError::InvalidPubkey
            },
        },
{
    proof {
        use_type_invariant(params);
    }
    if pubkey.len() != 32 {
        return Err(ZkSignerError::SizeMismatch);
    }
    let point: [u8; 32] = array_from(pubkey, 0);
    assert(point@ =~= pubkey@);
    if !point_is_valid(&point, params) {
        return Err(ZkSignerError::InvalidPubkey);
    }
    let digest = rescue_hash_point(&point, params);
    let mut hash: Vec<u8> = Vec::new();
    let mut i: usize = 0;
    while i < 20
        invariant
            i <= 20,
            hash@.len() == i,
            forall|j: int| 0 <= j < i ==> hash@[j] == digest@[19 - j],
        decreases 20 - i,
    {
        hash.push(digest[19 - i]);
        i = i + 1;
    }
    assert(hash@ =~= public_key_hash_of(pubkey@));
    Ok(hash)
}

/// Signs `msg` with a private key of 32 big-endian bytes.
///
/// The result holds the public key in bytes `0..32`, the point `R` in `32..64` and the scalar
/// `S` in `64..96`. It depends on the key and the message alone, and it is well formed:
/// verifying it, against any message, is never an error. Fails with `InvalidPrivKey` exactly
/// when `private_key` is not 32 bytes that stand for a scalar of the curve, and else with
/// `MessageTooLong` exactly when `msg` has more than 8064 bytes.
pub fn sign_musig(params: &CryptoParams, private_key: &[u8], msg: &[u8]) -> (r: Result<
    Vec<u8>,
    ZkSignerError,
>)
    ensures
        match r {
            Ok(signature) => signing(private_key@, msg@) == Ok::<Seq<u8>, ZkSignerError>(
                signature@,
            ) && signature@.len() == 96 && forall|other: Seq<u8>|
                (#[trigger] verification(other, signature@)) is Ok,
            Err(e) => signing(private_key@, msg@) == Err::<Seq<u8>, ZkSignerError>(e),
        },
{
    proof {
        use_type_invariant(params);
    }
    if private_key.len() != 32 {
        return Err(ZkSignerError::InvalidPrivKey);
    }
    let key = reversed(private_key);
    assert(key@.reverse() =~= private_key@);
    if !scalar_is_valid(&key) {
        return Err(ZkSignerError::InvalidPrivKey);
    }
    if msg.len() > MAX_MESSAGE_BYTES {
        return Err(ZkSignerError::MessageTooLong);
    }
    let public_key = generator_mul(&key, params);
    let digest = rescue_hash_tx_msg(params, msg);
    let nonce = sha256_to_scalar(private_key, digest.as_slice());
    let r = generator_mul(&nonce, params);
    let public_key_x = point_x_bytes(&public_key, params);
    let r_x = point_x_bytes(&r, params);
    let mut preimage: Vec<u8> = Vec::new();
    extend(&mut preimage, public_key_x.as_slice());
    extend(&mut preimage, r_x.as_slice());
    assert(preimage@ =~= point_x(public_key@) + point_x(r@));
    let c = rescue_to_scalar(preimage.as_slice(), digest.as_slice(), params);
    let product = scalar_mul(&c, &key);
    let s = scalar_add(&product, &nonce);
    proof {
        let q = scalar_modulus() as int;
        let x = (le_value(c@) * le_value(key@)) as int;
        let y = le_value(nonce@) as int;
        vstd::arithmetic::div_mod::lemma_add_mod_noop_right(y, x, q);
        assert((x % q + y) % q == (x + y) % q);
        lemma_le_bytes_of_le_value(s@);
    }
    let mut signature: Vec<u8> = Vec::new();
    extend(&mut signature, public_key.as_slice());
    extend(&mut signature, r.as_slice());
    extend(&mut signature, s.as_slice());
    assert(signature@ =~= signature_of(private_key@, msg@));
    assert(signature@.subrange(0, 32) =~= public_key@);
    assert(signature@.subrange(32, 64) =~= r@);
    assert(signature@.subrange(64, 96) =~= s@);
    Ok(signature)
}

/// Reads `R` and `S` from the 64 bytes of a packed signature.
///
/// Fails with `SizeMismatch` unless `bytes` holds 64 bytes, and with `InvalidSignature` when
/// the first 32 are not a point of the curve or the last 32 are not a scalar.
pub fn deserialize_signature(params: &CryptoParams, bytes: &[u8]) -> (r: Result<
    ([u8; 32], [u8; 32]),
    ZkSignerError,
>)
    ensures
        match r {
            Ok(parts) => bytes@.len() == 64 && parts.0@ == bytes@.subrange(0, 32) && parts.1@
                == bytes@.subrange(32, 64) && is_curve_point(parts.0@) && is_scalar(parts.1@),
            Err(e) => if bytes@.len() != 64 {
                e == ZkSignerError::SizeMismatch
            } else {
                e == ZkSignerError::InvalidSignature && !(is_curve_point(bytes@.subrange(0, 32))
                    && is_scalar(bytes@.subrange(32, 64)))
            },
        },
{
    proof {
        use_type_invariant(params);
    }
    if bytes.len() != 64 {
        return Err(ZkSignerError::SizeMismatch);
    }
    let r: [u8; 32] = array_from(bytes, 0);
    let s: [u8; 32] = array_from(bytes, 32);
    if !point_is_valid(&r, params) {
        return Err(ZkSignerError::InvalidSignature);
    }
    if !scalar_is_valid(&s) {
        return Err(ZkSignerError::InvalidSignature);
    }
    Ok((r, s))
}

/// Verifies a 96-byte signature against `msg`.
///
/// Fails with `SizeMismatch` unless `signature` holds 96 bytes, with `InvalidPubkey` when its
/// first 32 bytes are not a point, and with `InvalidSignature` when `R` is not a point or `S`
/// not a scalar. A well-formed signature that does not fit the message is `Ok(false)`; so is
/// any well-formed signature against a message of more than 8064 bytes, which cannot be
/// signed.
pub fn verify_musig(params: &CryptoParams, msg: &[u8], signature: &[u8]) -> (r: Result<
    bool,
    ZkSignerError,
>)
    ensures
        r == verification(msg@, signature@),
{
    proof {
        use_type_invariant(params);
    }
    if signature.len() != PACKED_POINT_SIZE + PACKED_SIGNATURE_SIZE {
        return Err(ZkSignerError::SizeMismatch);
    }
    let public_key: [u8; 32] = array_from(signature, 0);
    if !point_is_valid(&public_key, params) {
        return Err(ZkSignerError::InvalidPubkey);
    }
    let r: [u8; 32] = array_from(signature, 32);
    let s: [u8; 32] = array_from(signature, 64);
    if !point_is_valid(&r, params) || !scalar_is_valid(&s) {
        return Err(ZkSignerError::InvalidSignature);
    }
    if msg.len() > MAX_MESSAGE_BYTES {
        return Ok(false);
    }
    let digest = rescue_hash_tx_msg(params, msg);
    Ok(signature_fits(params, &public_key, &r, &s, digest.as_slice()))
}

/// Checks the signature equation on parts that are known to be well formed.
fn signature_fits(
    params: &CryptoParams,
    public_key: &[u8; 32],
    r: &[u8; 32],
    s: &[u8; 32],
    digest: &[u8],
) -> (fits: bool)
    requires
        is_curve_point(public_key@),
        is_curve_point(r@),
        is_scalar(s@),
        digest@.len() == 32,
    ensures
        fits == signature_holds(public_key@, r@, s@, digest@),
{
    proof {
        use_type_invariant(params);
    }
    let public_key_x = point_x_bytes(public_key, params);
    let r_x = point_x_bytes(r, params);
    let mut preimage: Vec<u8> = Vec::new();
    extend(&mut preimage, public_key_x.as_slice());
    extend(&mut preimage, r_x.as_slice());
    assert(preimage@ =~= point_x(public_key@) + point_x(r@));
    let c = rescue_to_scalar(preimage.as_slice(), digest, params);
    let left = generator_mul(s, params);
    let scaled = point_mul(public_key, &c, params);
    let right = point_add(&scaled, r, params);
    same_bytes(left.as_slice(), right.as_slice())
}

} // verus!
