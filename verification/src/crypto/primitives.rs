//! Curve and hash primitives.
//!
//! The signature scheme runs on the twisted Edwards curve and the Rescue sponge of
//! `franklin-crypto`. The verifier cannot look into either, so each operation that the scheme
//! uses is called through one function of this module, whose contract says what is taken on
//! trust. Points and scalars cross that line as their 32-byte wire forms: a point compressed
//! to its `y` coordinate with the sign of `x` in the top bit, a scalar little-endian.
//!
//! Most results are given a name and nothing more is said of them: which bytes a scalar
//! multiple or a hash has is for the curve library to say. Scalar arithmetic is stated in
//! full, since it is arithmetic modulo the group order.
use crate::bytes::be_value;
use franklin_crypto::alt_babyjubjub::fs::{Fs, FsRepr};
use franklin_crypto::alt_babyjubjub::{
    edwards, AltJubjubBn256, FixedGenerators, JubjubParams, Unknown,
};
use franklin_crypto::bellman::pairing::bn256::Bn256;
use franklin_crypto::bellman::pairing::ff::{Field, PrimeField, PrimeFieldRepr};
use franklin_crypto::plonk::circuit::multieq::compute_multipacking;
use franklin_crypto::rescue::bn256::Bn256RescueParams;
use franklin_crypto::rescue::rescue_hash;
use franklin_crypto::util::{rescue_hash_to_scalar, sha256_hash_to_scalar};
use vstd::prelude::*;

verus! {

/// `alt_babyjubjub::AltJubjubBn256`, the parameters of the curve. They are only passed on.
#[verifier::external_type_specification]
#[verifier::external_body]
pub struct ExAltJubjubBn256(AltJubjubBn256);

/// `rescue::bn256::Bn256RescueParams`, the parameters of the sponge. They are only passed on.
#[verifier::external_type_specification]
#[verifier::external_body]
pub struct ExBn256RescueParams(Bn256RescueParams);

/// Whether curve parameters are those of the protocol, as `AltJubjubBn256::new` computes
/// them.
pub uninterp spec fn is_curve_params(params: AltJubjubBn256) -> bool;

/// Whether sponge parameters are those of the protocol, as
/// `Bn256RescueParams::new_checked_2_into_1` computes them.
pub uninterp spec fn is_sponge_params(params: Bn256RescueParams) -> bool;

/// The fixed parameters of the curve and of the hash.
///
/// They are constants of the protocol, costly to compute, so they are made once by
/// `CryptoParams::new` and handed to every operation by reference. Every value of this type
/// holds the parameters of the protocol and no others, which is why the names below do not
/// mention them: the operations are asked for on these parameters only.
pub struct CryptoParams {
    jubjub: AltJubjubBn256,
    rescue: Bn256RescueParams,
}

/// The order of the curve's prime subgroup, which is the modulus of its scalars.
pub open spec fn scalar_modulus() -> nat {
    2736030358979909402780800718157159386076813972158567259200215660948447373041nat
}

/// The number whose base-256 digits, least significant first, are `bytes`.
pub open spec fn le_value(bytes: Seq<u8>) -> nat {
    be_value(bytes.reverse())
}

/// The wire form of a scalar: 32 bytes, little-endian, below the modulus.
pub open spec fn is_scalar(bytes: Seq<u8>) -> bool {
    bytes.len() == 32 && le_value(bytes) < scalar_modulus()
}

/// Whether 32 bytes are the compressed form of a point of the curve.
pub uninterp spec fn is_curve_point(bytes: Seq<u8>) -> bool;

/// The compressed form of `scalar` times the signing generator.
pub uninterp spec fn base_mul(scalar: Seq<u8>) -> Seq<u8>;

/// The compressed form of `scalar` times `point`.
pub uninterp spec fn curve_mul(point: Seq<u8>, scalar: Seq<u8>) -> Seq<u8>;

/// The compressed form of the sum of two points.
pub uninterp spec fn curve_add(p: Seq<u8>, q: Seq<u8>) -> Seq<u8>;

/// The affine `x` coordinate of a point, 32 bytes little-endian.
pub uninterp spec fn point_x(point: Seq<u8>) -> Seq<u8>;

/// The scalar that the Rescue sponge draws from the bytes `a` followed by `b`.
pub uninterp spec fn rescue_scalar(a: Seq<u8>, b: Seq<u8>) -> Seq<u8>;

/// The scalar that SHA-256 of `a` followed by `b` reduces to.
pub uninterp spec fn sha256_scalar(a: Seq<u8>, b: Seq<u8>) -> Seq<u8>;

/// The Rescue hash of a bit string, 32 bytes little-endian.
pub uninterp spec fn rescue_digest(bits: Seq<bool>) -> Seq<u8>;

/// The Rescue hash of the two coordinates of a point, 32 bytes little-endian.
pub uninterp spec fn rescue_point_digest(point: Seq<u8>) -> Seq<u8>;

/// `AltJubjubBn256::new`: the curve's parameters. It takes nothing and computes them from
/// constants, so what it gives is always the same; that, and no more, is what the name says.
#[verifier::external_body]
pub(crate) fn jubjub_params() -> (params: AltJubjubBn256)
    ensures
        is_curve_params(params),
{
    AltJubjubBn256::new()
}

/// `Bn256RescueParams::new_checked_2_into_1`: the sponge's parameters, rate 2 and capacity 1.
/// It takes nothing and computes them from constants, so what it gives is always the same;
/// that, and no more, is what the name says.
#[verifier::external_body]
pub(crate) fn rescue_params() -> (params: Bn256RescueParams)
    ensures
        is_sponge_params(params),
{
    Bn256RescueParams::new_checked_2_into_1()
}

/// `Fs::from_repr` on a little-endian representation: it accepts exactly the numbers below the
/// modulus.
#[verifier::external_body]
pub(crate) fn scalar_is_valid(bytes: &[u8; 32]) -> (r: bool)
    ensures
        r == is_scalar(bytes@),
{
    let mut repr = FsRepr::default();
    repr.read_le(&bytes[..]).is_ok() && Fs::from_repr(repr).is_ok()
}

/// `edwards::Point::read`: whether it accepts the bytes. Which bytes it accepts is given a
/// name only.
#[verifier::external_body]
pub(crate) fn point_is_valid(bytes: &[u8; 32], params: &CryptoParams) -> (r: bool)
    requires
        params.are_of_the_protocol(),
    ensures
        r == is_curve_point(bytes@),
{
    edwards::Point::<Bn256, Unknown>::read(&bytes[..], &params.jubjub).is_ok()
}

/// `edwards::Point::mul` on the generator `SpendingKeyGenerator`, written with
/// `edwards::Point::write`. The result is named; as a point that the library wrote, it is one
/// that the library reads.
#[verifier::external_body]
pub(crate) fn generator_mul(scalar: &[u8; 32], params: &CryptoParams) -> (r: [u8; 32])
    requires
        params.are_of_the_protocol(),
        is_scalar(scalar@),
    ensures
        r@ == base_mul(scalar@),
        is_curve_point(r@),
{
    let mut repr = FsRepr::default();
    repr.read_le(&scalar[..]).unwrap();
    let generator = params.jubjub.generator(FixedGenerators::SpendingKeyGenerator);
    let mut out = [0u8; 32];
    generator.mul(repr, &params.jubjub).write(&mut out[..]).unwrap();
    out
}

/// `edwards::Point::mul` on a point read from its compressed form. The result is named, and
/// is again a point that the library reads.
#[verifier::external_body]
pub(crate) fn point_mul(point: &[u8; 32], scalar: &[u8; 32], params: &CryptoParams) -> (r: [u8; 32])
    requires
        params.are_of_the_protocol(),
        is_curve_point(point@),
        is_scalar(scalar@),
    ensures
        r@ == curve_mul(point@, scalar@),
        is_curve_point(r@),
{
    let p = edwards::Point::<Bn256, Unknown>::read(&point[..], &params.jubjub).unwrap();
    let mut repr = FsRepr::default();
    repr.read_le(&scalar[..]).unwrap();
    let mut out = [0u8; 32];
    p.mul(repr, &params.jubjub).write(&mut out[..]).unwrap();
    out
}

/// `edwards::Point::add` on two points read from their compressed forms. The result is named,
/// and is again a point that the library reads.
#[verifier::external_body]
pub(crate) fn point_add(p: &[u8; 32], q: &[u8; 32], params: &CryptoParams) -> (r: [u8; 32])
    requires
        params.are_of_the_protocol(),
        is_curve_point(p@),
        is_curve_point(q@),
    ensures
        r@ == curve_add(p@, q@),
        is_curve_point(r@),
{
    let a = edwards::Point::<Bn256, Unknown>::read(&p[..], &params.jubjub).unwrap();
    let b = edwards::Point::<Bn256, Unknown>::read(&q[..], &params.jubjub).unwrap();
    let mut out = [0u8; 32];
    a.add(&b, &params.jubjub).write(&mut out[..]).unwrap();
    out
}

/// `edwards::Point::into_xy`: the affine `x` coordinate, written little-endian. The result is
/// named.
#[verifier::external_body]
pub(crate) fn point_x_bytes(point: &[u8; 32], params: &CryptoParams) -> (r: [u8; 32])
    requires
        params.are_of_the_protocol(),
        is_curve_point(point@),
    ensures
        r@ == point_x(point@),
{
    let p = edwards::Point::<Bn256, Unknown>::read(&point[..], &params.jubjub).unwrap();
    let mut out = [0u8; 32];
    p.into_xy().0.into_repr().write_le(&mut out[..]).unwrap();
    out
}

/// `Field::mul_assign` on two scalars: the product modulo the group order.
#[verifier::external_body]
pub(crate) fn scalar_mul(a: &[u8; 32], b: &[u8; 32]) -> (r: [u8; 32])
    requires
        is_scalar(a@),
        is_scalar(b@),
    ensures
        is_scalar(r@),
        le_value(r@) == (le_value(a@) * le_value(b@)) % scalar_modulus(),
{
    let (mut x, mut y) = (FsRepr::default(), FsRepr::default());
    x.read_le(&a[..]).unwrap();
    y.read_le(&b[..]).unwrap();
    let mut product = Fs::from_repr(x).unwrap();
    product.mul_assign(&Fs::from_repr(y).unwrap());
    let mut out = [0u8; 32];
    product.into_repr().write_le(&mut out[..]).unwrap();
    out
}

/// `Field::add_assign` on two scalars: the sum modulo the group order.
#[verifier::external_body]
pub(crate) fn scalar_add(a: &[u8; 32], b: &[u8; 32]) -> (r: [u8; 32])
    requires
        is_scalar(a@),
        is_scalar(b@),
    ensures
        is_scalar(r@),
        le_value(r@) == (le_value(a@) + le_value(b@)) % scalar_modulus(),
{
    let (mut x, mut y) = (FsRepr::default(), FsRepr::default());
    x.read_le(&a[..]).unwrap();
    y.read_le(&b[..]).unwrap();
    let mut sum = Fs::from_repr(x).unwrap();
    sum.add_assign(&Fs::from_repr(y).unwrap());
    let mut out = [0u8; 32];
    sum.into_repr().write_le(&mut out[..]).unwrap();
    out
}

/// `util::rescue_hash_to_scalar` with an empty persona: a scalar drawn from the sponge after
/// it absorbed `a` and `b`. The result is named; being a field element, it is a scalar. The
/// sponge refuses an empty input, which is left out.
#[verifier::external_body]
pub(crate) fn rescue_to_scalar(a: &[u8], b: &[u8], params: &CryptoParams) -> (r: [u8; 32])
    requires
        params.are_of_the_protocol(),
        a@.len() + b@.len() >= 1,
    ensures
        r@ == rescue_scalar(a@, b@),
        is_scalar(r@),
{
    let scalar: Fs = rescue_hash_to_scalar::<Bn256>(&[], a, b, &params.rescue);
    let mut out = [0u8; 32];
    scalar.into_repr().write_le(&mut out[..]).unwrap();
    out
}

/// `util::sha256_hash_to_scalar` with an empty persona: SHA-256 of `a` and `b`, reduced to a
/// scalar. The result is named; being a field element, it is a scalar.
#[verifier::external_body]
pub(crate) fn sha256_to_scalar(a: &[u8], b: &[u8]) -> (r: [u8; 32])
    ensures
        r@ == sha256_scalar(a@, b@),
        is_scalar(r@),
{
    let scalar: Fs = sha256_hash_to_scalar::<Bn256>(&[], a, b);
    let mut out = [0u8; 32];
    scalar.into_repr().write_le(&mut out[..]).unwrap();
    out
}

/// `rescue::rescue_hash` of a bit string, packed into field elements by
/// `multieq::compute_multipacking`. The one element that comes out is written little-endian
/// and named. The hash takes between 1 and 255 elements of 253 bits each; other lengths are
/// left out.
#[verifier::external_body]
pub(crate) fn rescue_hash_bits(bits: &[bool], params: &CryptoParams) -> (r: [u8; 32])
    requires
        params.are_of_the_protocol(),
        1 <= bits@.len() <= 253 * 255,
    ensures
        r@ == rescue_digest(bits@),
{
    let packed = compute_multipacking::<Bn256>(bits);
    let hash = rescue_hash::<Bn256>(&params.rescue, &packed);
    let mut out = [0u8; 32];
    hash[0].into_repr().write_le(&mut out[..]).unwrap();
    out
}

/// `rescue::rescue_hash` of the coordinates `x`, `y` of a point. The one element that comes
/// out is written little-endian and named.
#[verifier::external_body]
pub(crate) fn rescue_hash_point(point: &[u8; 32], params: &CryptoParams) -> (r: [u8; 32])
    requires
        params.are_of_the_protocol(),
        is_curve_point(point@),
    ensures
        r@ == rescue_point_digest(point@),
{
    let p = edwards::Point::<Bn256, Unknown>::read(&point[..], &params.jubjub).unwrap();
    let (x, y) = p.into_xy();
    let hash = rescue_hash::<Bn256>(&params.rescue, &[x, y]);
    let mut out = [0u8; 32];
    hash[0].into_repr().write_le(&mut out[..]).unwrap();
    out
}

impl CryptoParams {
    /// The parameters are those of the protocol, for the curve and for the sponge.
    #[verifier::type_invariant]
    pub closed spec fn are_of_the_protocol(self) -> bool {
        is_curve_params(self.jubjub) && is_sponge_params(self.rescue)
    }

    /// Computes the parameters of the protocol. This takes a moment; keep the result and
    /// share it. Every call gives the same parameters.
    pub fn new() -> (params: CryptoParams)
        ensures
            params.are_of_the_protocol(),
    {
        CryptoParams { jubjub: jubjub_params(), rescue: rescue_params() }
    }
}

} // verus!
