//! Arbitrary-precision amounts.
//!
//! Amounts, fees and prices are `num::BigUint` values. The verifier cannot look inside one, so
//! this module names the number that a `BigUint` stands for and states, operation by operation,
//! what `num` documents of it. Everything else in the crate reasons about amounts through these
//! statements only.
use crate::bytes::be_value;
use num::BigUint;
use num::ToPrimitive;
use num::Zero;
use vstd::prelude::*;

verus! {

/// `num::BigUint`, a number kept as a vector of digits. Nothing inside it is visible here.
#[verifier::external_type_specification]
#[verifier::external_body]
pub struct ExBigUint(BigUint);

/// The natural number that the digits of a `BigUint` stand for.
pub uninterp spec fn biguint_value(n: BigUint) -> nat;

/// The character for a decimal digit `d < 10`.
pub open spec fn digit_char(d: nat) -> char
    recommends
        d < 10,
{
    (('0' as u8) + d) as u8 as char
}

/// The base-10 digits of `n`, most significant first, without leading zeros (`"0"` for zero).
pub open spec fn decimal_string(n: nat) -> Seq<char>
    decreases n,
{
    if n < 10 {
        seq![digit_char(n)]
    } else {
        decimal_string(n / 10).push(digit_char(n % 10))
    }
}

/// `Clone` for `BigUint`: the copy holds the same number.
pub assume_specification[ <BigUint as Clone>::clone ](n: &BigUint) -> (r: BigUint)
    ensures
        biguint_value(r) == biguint_value(*n),
;

/// `BigUint::from(u128)`: the big integer with the value of `v`.
#[verifier::external_body]
pub(crate) fn biguint_from_u128(v: u128) -> (n: BigUint)
    ensures
        biguint_value(n) == v,
{
    BigUint::from(v)
}

/// `ToPrimitive::to_u128` on a `BigUint`: the value as a `u128`, or `None` when it does not fit.
#[verifier::external_body]
pub(crate) fn biguint_to_u128(n: &BigUint) -> (r: Option<u128>)
    ensures
        biguint_value(*n) <= u128::MAX ==> r == Some(biguint_value(*n) as u128),
        biguint_value(*n) > u128::MAX ==> r is None,
{
    n.to_u128()
}

/// `BigUint::to_bytes_be`: the base-256 digits, most significant first, with no leading zero
/// byte; zero is the single byte `0`.
#[verifier::external_body]
pub(crate) fn biguint_to_bytes_be(n: &BigUint) -> (bytes: Vec<u8>)
    ensures
        be_value(bytes@) == biguint_value(*n),
        bytes@.len() >= 1,
        bytes@.len() > 1 ==> bytes@[0] != 0u8,
{
    n.to_bytes_be()
}

/// `Display` for `BigUint`, through `to_string`: the value in base 10.
#[verifier::external_body]
pub(crate) fn biguint_to_string(n: &BigUint) -> (s: String)
    ensures
        s@ == decimal_string(biguint_value(*n)),
{
    n.to_string()
}

/// `Zero::is_zero` on a `BigUint`.
#[verifier::external_body]
pub(crate) fn biguint_is_zero(n: &BigUint) -> (r: bool)
    ensures
        r == (biguint_value(*n) == 0),
{
    n.is_zero()
}

/// `&BigUint * &BigUint`: the product, which cannot overflow.
#[verifier::external_body]
pub(crate) fn biguint_mul(a: &BigUint, b: &BigUint) -> (n: BigUint)
    ensures
        biguint_value(n) == biguint_value(*a) * biguint_value(*b),
{
    a * b
}

/// `&BigUint / &BigUint`: the quotient rounded down. Division by zero panics in `num`, so it is
/// left out.
#[verifier::external_body]
pub(crate) fn biguint_div(a: &BigUint, b: &BigUint) -> (n: BigUint)
    requires
        biguint_value(*b) != 0,
    ensures
        biguint_value(n) == biguint_value(*a) / biguint_value(*b),
{
    a / b
}

/// `&BigUint - &BigUint`: the difference. `num` panics when the result would be negative, so
/// that is left out.
#[verifier::external_body]
pub(crate) fn biguint_sub(a: &BigUint, b: &BigUint) -> (n: BigUint)
    requires
        biguint_value(*b) <= biguint_value(*a),
    ensures
        biguint_value(n) == biguint_value(*a) - biguint_value(*b),
{
    a - b
}

/// `<=` on `BigUint`: the order of the values.
#[verifier::external_body]
pub(crate) fn biguint_le(a: &BigUint, b: &BigUint) -> (r: bool)
    ensures
        r == (biguint_value(*a) <= biguint_value(*b)),
{
    a <= b
}

} // verus!
