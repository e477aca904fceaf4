//! Transactions: their fields, their canonical bytes, their checks and their signatures.
pub mod change_pubkey;
pub mod order_matching;
pub mod pack;
pub mod validator;

use crate::basic_types::bigint::{
    biguint_div, biguint_mul, biguint_sub, biguint_to_string, biguint_value, decimal_string,
};
use crate::bytes::{lemma_pow_nat_positive, pow_nat};
use crate::tx_type::pack::ten_pow;
use num::BigUint;
use vstd::prelude::*;
use vstd::string::*;

verus! {

/// `digits` with zeros in front, so that there are at least `width` of them.
pub open spec fn zero_padded(digits: Seq<char>, width: nat) -> Seq<char> {
    if digits.len() >= width {
        digits
    } else {
        Seq::new((width - digits.len()) as nat, |i: int| '0') + digits
    }
}

/// `digits` without the zeros at its end.
pub open spec fn without_trailing_zeros(digits: Seq<char>) -> Seq<char>
    decreases digits.len(),
{
    if digits.len() > 0 && digits.last() == '0' {
        without_trailing_zeros(digits.drop_last())
    } else {
        digits
    }
}

/// The digits after the decimal point for `fraction` parts in `10^units`: no zeros at the
/// end, but at least one digit.
pub open spec fn fraction_digits(fraction: nat, units: nat) -> Seq<char> {
    let digits = without_trailing_zeros(zero_padded(decimal_string(fraction), units));
    if digits.len() == 0 {
        seq!['0']
    } else {
        digits
    }
}

/// An amount of smallest units written in whole units of `10^units` of them: the whole part,
/// a point, and the fraction.
pub open spec fn units_string(wei: nat, units: nat) -> Seq<char> {
    decimal_string(wei / pow_nat(10, units)) + seq!['.'] + fraction_digits(
        wei % pow_nat(10, units),
        units,
    )
}

/// `String::from_iter` over characters: the string that holds them, in order.
#[verifier::external_body]
pub(crate) fn string_from_chars(chars: &Vec<char>) -> (s: String)
    ensures
        s@ == chars@,
{
    chars.iter().collect()
}

/// Writes an amount of smallest units in whole units, as a decimal number with a point.
///
/// `format_units(1500, 3)` is `1.5`, `format_units(1000, 3)` is `1.0`, `format_units(5, 3)` is
/// `0.005`.
pub fn format_units(wei: &BigUint, units: u8) -> (s: String)
    ensures
        s@ == units_string(biguint_value(*wei), units as nat),
{
    let scale = ten_pow(units as u128);
    proof {
        lemma_pow_nat_positive(10, units as nat);
        vstd::arithmetic::div_mod::lemma_fundamental_div_mod(
            biguint_value(*wei) as int,
            pow_nat(10, units as nat) as int,
        );
        let q = biguint_value(*wei) / pow_nat(10, units as nat);
        assert(q * pow_nat(10, units as nat) == pow_nat(10, units as nat) * q)
            by (nonlinear_arith);
    }
    let whole = biguint_div(wei, &scale);
    let whole_scaled = biguint_mul(&whole, &scale);
    let fraction = biguint_sub(wei, &whole_scaled);
    let fraction_text = biguint_to_string(&fraction);
    let n = fraction_text.as_str().unicode_len();
    let mut digits: Vec<char> = Vec::new();
    let missing: usize = if n < units as usize {
        units as usize - n
    } else {
        0
    };
    let mut i: usize = 0;
    while i < missing
        invariant
            i <= missing,
            digits@ == Seq::new(i as nat, |j: int| '0'),
        decreases missing - i,
    {
        digits.push('0');
        assert(digits@ =~= Seq::new((i + 1) as nat, |j: int| '0'));
        i = i + 1;
    }
    let ghost zeros = digits@;
    let mut k: usize = 0;
    while k < n
        invariant
            k <= n,
            n == fraction_text@.len(),
            digits@ == zeros + fraction_text@.subrange(0, k as int),
        decreases n - k,
    {
        digits.push(fraction_text.as_str().get_char(k));
        assert(fraction_text@.subrange(0, k as int).push(fraction_text@[k as int])
            =~= fraction_text@.subrange(0, k as int + 1));
        k = k + 1;
    }
    assert(fraction_text@.subrange(0, n as int) =~= fraction_text@);
    assert(digits@ =~= zero_padded(fraction_text@, units as nat));
    let ghost padded = digits@;
    while digits.len() > 0 && digits[digits.len() - 1] == '0'
        invariant
            without_trailing_zeros(digits@) == without_trailing_zeros(padded),
        decreases digits@.len(),
    {
        digits.pop();
    }
    if digits.len() == 0 {
        digits.push('0');
    }
    let mut s = biguint_to_string(&whole);
    proof {
        reveal_strlit(".");
        assert("."@ =~= seq!['.']);
    }
    s.append(".");
    let fraction_part = string_from_chars(&digits);
    s.append(fraction_part.as_str());
    s
}

} // verus!
