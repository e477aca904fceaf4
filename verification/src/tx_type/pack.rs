//! Packed amounts.
//!
//! An amount travels in a transaction as a small decimal float: a mantissa of `mantissa_len`
//! bits followed by an exponent of `exponent_len` bits, standing for
//! `mantissa * 10^exponent`. Packing rounds down to the nearest number of that form, so it is
//! lossless exactly on the numbers that have the form already.
use crate::basic_types::bigint::{
    biguint_div, biguint_from_u128, biguint_le, biguint_mul, biguint_sub, biguint_to_u128,
    biguint_value,
};
use crate::bytes::{
    be_bytes, be_value, from_be_bytes, lemma_be_bytes_len, lemma_be_bytes_zero,
    lemma_be_value_of_be_bytes_small, lemma_pow_nat_adds, lemma_pow_nat_monotone,
    lemma_pow_nat_positive, pow_nat, to_be_bytes, zero_bytes,
};
use num::BigUint;
use vstd::prelude::*;

verus! {

/// Bits of mantissa in a packed token amount.
pub const AMOUNT_MANTISSA_BIT_WIDTH: usize = 35;

/// Bits of exponent in a packed token amount.
pub const AMOUNT_EXPONENT_BIT_WIDTH: usize = 5;

/// Bits of mantissa in a packed fee.
pub const FEE_MANTISSA_BIT_WIDTH: usize = 11;

/// Bits of exponent in a packed fee.
pub const FEE_EXPONENT_BIT_WIDTH: usize = 5;

/// The layouts that this codec handles: whole bytes, at most eight of them, with at most eight
/// bits of exponent.
pub open spec fn valid_layout(exponent_len: nat, mantissa_len: nat) -> bool {
    &&& 1 <= exponent_len <= 8
    &&& 1 <= mantissa_len
    &&& exponent_len + mantissa_len <= 64
    &&& (exponent_len + mantissa_len) % 8 == 0
}

/// The largest mantissa of `mantissa_len` bits.
pub open spec fn max_mantissa(mantissa_len: nat) -> nat {
    (pow_nat(2, mantissa_len) - 1) as nat
}

/// The largest exponent of `exponent_len` bits.
pub open spec fn max_exponent(exponent_len: nat) -> nat {
    (pow_nat(2, exponent_len) - 1) as nat
}

/// The largest amount that a layout can hold.
pub open spec fn max_packable(exponent_len: nat, mantissa_len: nat) -> nat {
    max_mantissa(mantissa_len) * pow_nat(10, max_exponent(exponent_len))
}

/// The first exponent `e` at or after `from` with `amount <= mantissa * 10^e`, stopping at
/// `limit`.
pub open spec fn min_exponent(amount: nat, mantissa: nat, from: nat, limit: nat) -> nat
    decreases limit - from,
{
    if from >= limit || amount <= mantissa * pow_nat(10, from) {
        from
    } else {
        min_exponent(amount, mantissa, from + 1, limit)
    }
}

/// Mantissa and exponent that `amount` is packed to.
///
/// With `e` the least exponent that reaches `amount`, there are two candidates that do not
/// exceed it: `amount` rounded down to a multiple of `10^e`, and the largest mantissa at
/// `e - 1`. The nearer one is taken, the first on a tie.
pub open spec fn float_parts(amount: nat, exponent_len: nat, mantissa_len: nat) -> (nat, nat) {
    let top = max_mantissa(mantissa_len);
    let e = min_exponent(amount, top, 0, max_exponent(exponent_len));
    let m = amount / pow_nat(10, e);
    if e != 0 && amount - top * pow_nat(10, (e - 1) as nat) < amount - m * pow_nat(10, e) {
        (top, (e - 1) as nat)
    } else {
        (m, e)
    }
}

/// The packed field as one number: the mantissa in the high bits, the exponent in the low
/// `exponent_len` bits.
pub open spec fn packed_word(amount: nat, exponent_len: nat, mantissa_len: nat) -> nat {
    let (m, e) = float_parts(amount, exponent_len, mantissa_len);
    m * pow_nat(2, exponent_len) + e
}

/// The packed field: `packed_word` in big-endian bytes.
pub open spec fn packed(amount: nat, exponent_len: nat, mantissa_len: nat) -> Seq<u8> {
    be_bytes(
        packed_word(amount, exponent_len, mantissa_len),
        (exponent_len + mantissa_len) / 8,
    )
}

/// The amount that a packed field stands for.
pub open spec fn unpacked(bytes: Seq<u8>, exponent_len: nat) -> nat {
    let word = be_value(bytes);
    float_value(word / pow_nat(2, exponent_len), word % pow_nat(2, exponent_len))
}

/// `amount` survives packing: it is within the layout's range and comes back unchanged.
pub open spec fn packable(amount: nat, exponent_len: nat, mantissa_len: nat) -> bool {
    &&& amount <= max_packable(exponent_len, mantissa_len)
    &&& unpacked(packed(amount, exponent_len, mantissa_len), exponent_len) == amount
}

/// The number that a mantissa and an exponent stand for.
pub open spec fn float_value(mantissa: nat, exponent: nat) -> nat {
    mantissa * pow_nat(10, exponent)
}

/// `amount` is a mantissa times a power of ten, both within the layout.
pub open spec fn representable(amount: nat, exponent_len: nat, mantissa_len: nat) -> bool {
    exists|m: nat, e: nat|
        m <= max_mantissa(mantissa_len) && e <= max_exponent(exponent_len) && amount
            == #[trigger] float_value(m, e)
}

/// `2^64`, spelled out.
pub proof fn lemma_pow2_64()
    ensures
        pow_nat(2, 8) == 256,
        pow_nat(2, 64) == 0x1_0000_0000_0000_0000,
{
    assert(pow_nat(2, 8) == 256) by {
        reveal_with_fuel(pow_nat, 9);
    }
    lemma_pow_nat_adds(2, 8, 8);
    assert(pow_nat(2, 16) == 0x1_0000);
    lemma_pow_nat_adds(2, 16, 16);
    assert(pow_nat(2, 32) == 0x1_0000_0000);
    lemma_pow_nat_adds(2, 32, 32);
}

/// `2^n` for `n <= 64`.
fn two_pow(n: usize) -> (r: u128)
    requires
        n <= 64,
    ensures
        r == pow_nat(2, n as nat),
        1 <= r <= 0x1_0000_0000_0000_0000,
{
    let mut r: u128 = 1;
    let mut i: usize = 0;
    proof {
        lemma_pow2_64();
    }
    while i < n
        invariant
            i <= n <= 64,
            r == pow_nat(2, i as nat),
            r <= pow_nat(2, 64),
            pow_nat(2, 64) == 0x1_0000_0000_0000_0000,
        decreases n - i,
    {
        proof {
            lemma_pow_nat_monotone(2, (i + 1) as nat, 64);
        }
        r = r * 2;
        i = i + 1;
    }
    proof {
        lemma_pow2_64();
        lemma_pow_nat_positive(2, n as nat);
    }
    r
}

/// `10^e` as a big integer.
pub(crate) fn ten_pow(e: u128) -> (r: BigUint)
    ensures
        biguint_value(r) == pow_nat(10, e as nat),
{
    let ten = biguint_from_u128(10);
    let mut r = biguint_from_u128(1);
    let mut i: u128 = 0;
    while i < e
        invariant
            i <= e,
            biguint_value(ten) == 10,
            biguint_value(r) == pow_nat(10, i as nat),
        decreases e - i,
    {
        proof {
            let p = pow_nat(10, i as nat);
            assert(p * 10 == 10 * p) by (nonlinear_arith);
        }
        r = biguint_mul(&r, &ten);
        i = i + 1;
    }
    r
}

/// Where the search for the least exponent ends, and what holds there.
pub proof fn lemma_min_exponent(amount: nat, mantissa: nat, from: nat, limit: nat)
    requires
        from <= limit,
    ensures
        from <= min_exponent(amount, mantissa, from, limit) <= limit,
        min_exponent(amount, mantissa, from, limit) < limit ==> amount <= mantissa * pow_nat(
            10,
            min_exponent(amount, mantissa, from, limit),
        ),
        min_exponent(amount, mantissa, from, limit) > from ==> amount > mantissa * pow_nat(
            10,
            (min_exponent(amount, mantissa, from, limit) - 1) as nat,
        ),
    decreases limit - from,
{
    if from >= limit || amount <= mantissa * pow_nat(10, from) {
    } else {
        lemma_min_exponent(amount, mantissa, from + 1, limit);
    }
}

/// The quotient by `scale` of an amount that `mantissa * scale` reaches is at most `mantissa`,
/// and rounding down to a multiple of `scale` never exceeds the amount.
pub proof fn lemma_quotient_bounds(amount: nat, mantissa: nat, scale: nat)
    requires
        scale > 0,
        amount <= mantissa * scale,
    ensures
        amount / scale <= mantissa,
        (amount / scale) * scale <= amount,
{
    vstd::arithmetic::div_mod::lemma_div_is_ordered(
        amount as int,
        (mantissa * scale) as int,
        scale as int,
    );
    vstd::arithmetic::div_mod::lemma_div_multiples_vanish(mantissa as int, scale as int);
    assert(mantissa * scale == scale * mantissa) by (nonlinear_arith);
    vstd::arithmetic::div_mod::lemma_fundamental_div_mod(amount as int, scale as int);
    let q = amount / scale;
    assert(q * scale == scale * q) by (nonlinear_arith);
}

/// What packing makes of an amount within range: a mantissa and an exponent within the
/// layout, standing for a number that does not exceed the amount.
pub proof fn lemma_float_parts_bounds(amount: nat, exponent_len: nat, mantissa_len: nat)
    requires
        amount <= max_packable(exponent_len, mantissa_len),
    ensures
        float_parts(amount, exponent_len, mantissa_len).0 <= max_mantissa(mantissa_len),
        float_parts(amount, exponent_len, mantissa_len).1 <= max_exponent(exponent_len),
        float_value(
            float_parts(amount, exponent_len, mantissa_len).0,
            float_parts(amount, exponent_len, mantissa_len).1,
        ) <= amount,
{
    let top = max_mantissa(mantissa_len);
    let limit = max_exponent(exponent_len);
    let e = min_exponent(amount, top, 0, limit);
    lemma_min_exponent(amount, top, 0, limit);
    lemma_pow_nat_positive(10, e);
    lemma_quotient_bounds(amount, top, pow_nat(10, e));
}

/// The largest amount that a layout holds, as a big integer. `pack` takes no larger one.
pub fn largest_amount(exponent_len: usize, mantissa_len: usize) -> (n: BigUint)
    requires
        valid_layout(exponent_len as nat, mantissa_len as nat),
    ensures
        biguint_value(n) == max_packable(exponent_len as nat, mantissa_len as nat),
{
    let top = biguint_from_u128(two_pow(mantissa_len) - 1);
    let scale = ten_pow(two_pow(exponent_len) - 1);
    biguint_mul(&top, &scale)
}

/// Packs `amount` into `(exponent_len + mantissa_len) / 8` bytes.
///
/// The amount must not exceed the largest that the layout holds; within that range every
/// amount is packed, rounded down where it is not a mantissa times a power of ten.
pub fn pack(amount: &BigUint, exponent_len: usize, mantissa_len: usize) -> (bytes: Vec<u8>)
    requires
        valid_layout(exponent_len as nat, mantissa_len as nat),
        biguint_value(*amount) <= max_packable(exponent_len as nat, mantissa_len as nat),
    ensures
        bytes@ == packed(biguint_value(*amount), exponent_len as nat, mantissa_len as nat),
{
    let ghost a = biguint_value(*amount);
    let radix: u128 = two_pow(exponent_len);
    let top_value: u128 = two_pow(mantissa_len) - 1;
    let limit: u128 = radix - 1;
    let top = biguint_from_u128(top_value);
    let ten = biguint_from_u128(10);
    let mut e: u128 = 0;
    let mut scale = biguint_from_u128(1);
    let mut below = biguint_from_u128(0);
    let mut reached = false;
    while !reached && e < limit
        invariant
            e <= limit,
            a == biguint_value(*amount),
            top_value as nat == max_mantissa(mantissa_len as nat),
            limit as nat == max_exponent(exponent_len as nat),
            biguint_value(top) == top_value,
            biguint_value(ten) == 10,
            biguint_value(scale) == pow_nat(10, e as nat),
            e > 0 ==> biguint_value(below) == pow_nat(10, (e - 1) as nat),
            reached ==> a <= top_value * pow_nat(10, e as nat),
            min_exponent(a, top_value as nat, 0, limit as nat) == min_exponent(
                a,
                top_value as nat,
                e as nat,
                limit as nat,
            ),
        decreases (limit - e) + (if reached { 0int } else { 1int }),
    {
        let reach = biguint_mul(&top, &scale);
        if biguint_le(amount, &reach) {
            reached = true;
        } else {
            proof {
                let p = pow_nat(10, e as nat);
                assert(p * 10 == 10 * p) by (nonlinear_arith);
            }
            below = scale;
            scale = biguint_mul(&below, &ten);
            e = e + 1;
        }
    }
    proof {
        lemma_min_exponent(a, top_value as nat, 0, limit as nat);
        lemma_pow_nat_positive(10, e as nat);
        lemma_quotient_bounds(a, top_value as nat, pow_nat(10, e as nat));
    }
    let quotient = biguint_div(amount, &scale);
    let mut mantissa: u128 = biguint_to_u128(&quotient).unwrap();
    let mut exponent: u128 = e;
    if e > 0 {
        let rounded = biguint_mul(&quotient, &scale);
        let capped = biguint_mul(&top, &below);
        let loss_rounded = biguint_sub(amount, &rounded);
        let loss_capped = biguint_sub(amount, &capped);
        if !biguint_le(&loss_rounded, &loss_capped) {
            mantissa = top_value;
            exponent = e - 1;
        }
    }
    assert(mantissa * radix + exponent < 0x1_0000_0000_0000_0000_0000_0000_0000_0000)
        by (nonlinear_arith)
        requires
            mantissa < 0x1_0000_0000_0000_0000,
            radix <= 0x1_0000_0000_0000_0000,
            exponent < radix,
    ;
    to_be_bytes(mantissa * radix + exponent, (exponent_len + mantissa_len) / 8)
}

/// Reads a packed field of `(exponent_len + mantissa_len) / 8` bytes back into an amount.
///
/// Returns `None` when `data` has another length.
pub fn unpack(data: &[u8], exponent_len: usize, mantissa_len: usize) -> (amount: Option<BigUint>)
    requires
        valid_layout(exponent_len as nat, mantissa_len as nat),
    ensures
        data@.len() * 8 != exponent_len + mantissa_len ==> amount is None,
        data@.len() * 8 == exponent_len + mantissa_len ==> amount is Some && biguint_value(
            amount->0,
        ) == unpacked(data@, exponent_len as nat),
{
    if data.len() != (exponent_len + mantissa_len) / 8 {
        return None;
    }
    let word: u128 = from_be_bytes(data);
    let radix: u128 = two_pow(exponent_len);
    let exponent: u128 = word % radix;
    let mantissa: u128 = word / radix;
    let scale = ten_pow(exponent);
    let m = biguint_from_u128(mantissa);
    Some(biguint_mul(&m, &scale))
}

/// Whether `amount` survives packing in the given layout unchanged.
pub fn is_packable(amount: &BigUint, exponent_len: usize, mantissa_len: usize) -> (r: bool)
    requires
        valid_layout(exponent_len as nat, mantissa_len as nat),
    ensures
        r == packable(biguint_value(*amount), exponent_len as nat, mantissa_len as nat),
{
    let largest = largest_amount(exponent_len, mantissa_len);
    if !biguint_le(amount, &largest) {
        return false;
    }
    let bytes = pack(amount, exponent_len, mantissa_len);
    proof {
        lemma_be_bytes_len(
            packed_word(biguint_value(*amount), exponent_len as nat, mantissa_len as nat),
            ((exponent_len + mantissa_len) / 8) as nat,
        );
    }
    match unpack(bytes.as_slice(), exponent_len, mantissa_len) {
        Some(back) => biguint_le(amount, &back) && biguint_le(&back, amount),
        None => false,
    }
}

/// A whole number of bytes holds as many values as its bits do.
pub proof fn lemma_pow2_of_bytes(n: nat)
    ensures
        pow_nat(2, 8 * n) == pow_nat(256, n),
    decreases n,
{
    if n > 0 {
        lemma_pow2_of_bytes((n - 1) as nat);
        lemma_pow2_64();
        lemma_pow_nat_adds(2, 8, (8 * (n - 1)) as nat);
        assert(8 + (8 * (n - 1)) as nat == 8 * n);
    }
}

/// Reading a packed field back gives the number that its mantissa and exponent stand for.
pub proof fn lemma_unpacked_packed(amount: nat, exponent_len: nat, mantissa_len: nat)
    requires
        valid_layout(exponent_len, mantissa_len),
        amount <= max_packable(exponent_len, mantissa_len),
    ensures
        unpacked(packed(amount, exponent_len, mantissa_len), exponent_len) == float_value(
            float_parts(amount, exponent_len, mantissa_len).0,
            float_parts(amount, exponent_len, mantissa_len).1,
        ),
{
    let (m, e) = float_parts(amount, exponent_len, mantissa_len);
    let radix = pow_nat(2, exponent_len);
    let width = (exponent_len + mantissa_len) / 8;
    let word = m * radix + e;
    lemma_float_parts_bounds(amount, exponent_len, mantissa_len);
    lemma_pow_nat_positive(2, exponent_len);
    lemma_pow_nat_positive(2, mantissa_len);
    lemma_pow_nat_adds(2, mantissa_len, exponent_len);
    lemma_pow2_of_bytes(width);
    assert(8 * width == mantissa_len + exponent_len);
    assert(word < pow_nat(2, mantissa_len) * radix) by (nonlinear_arith)
        requires
            word == m * radix + e,
            m + 1 <= pow_nat(2, mantissa_len),
            e < radix,
    ;
    lemma_be_value_of_be_bytes_small(word, width);
    vstd::arithmetic::div_mod::lemma_fundamental_div_mod_converse(
        word as int,
        radix as int,
        m as int,
        e as int,
    );
    assert(m * radix == radix * m) by (nonlinear_arith);
}

/// Packing never rounds up: what comes back does not exceed what went in.
pub proof fn law_packing_rounds_down(amount: nat, exponent_len: nat, mantissa_len: nat)
    requires
        valid_layout(exponent_len, mantissa_len),
        amount <= max_packable(exponent_len, mantissa_len),
    ensures
        unpacked(packed(amount, exponent_len, mantissa_len), exponent_len) <= amount,
{
    lemma_unpacked_packed(amount, exponent_len, mantissa_len);
    lemma_float_parts_bounds(amount, exponent_len, mantissa_len);
}

/// A packable amount comes back from `unpack` after `pack` as it went in.
pub proof fn law_pack_round_trip(amount: nat, exponent_len: nat, mantissa_len: nat)
    requires
        valid_layout(exponent_len, mantissa_len),
        packable(amount, exponent_len, mantissa_len),
    ensures
        unpacked(packed(amount, exponent_len, mantissa_len), exponent_len) == amount,
{
}

/// Every number of the form `m * 10^e` within the layout is within its range.
pub proof fn lemma_float_value_in_range(m: nat, e: nat, exponent_len: nat, mantissa_len: nat)
    requires
        m <= max_mantissa(mantissa_len),
        e <= max_exponent(exponent_len),
    ensures
        float_value(m, e) <= max_mantissa(mantissa_len) * pow_nat(10, e),
        float_value(m, e) <= max_packable(exponent_len, mantissa_len),
{
    let top = max_mantissa(mantissa_len);
    let limit = max_exponent(exponent_len);
    lemma_pow_nat_monotone(10, e, limit);
    assert(m * pow_nat(10, e) <= top * pow_nat(10, e)) by (nonlinear_arith)
        requires
            m <= top,
    ;
    assert(top * pow_nat(10, e) <= top * pow_nat(10, limit)) by (nonlinear_arith)
        requires
            pow_nat(10, e) <= pow_nat(10, limit),
    ;
}

/// Packing is lossless exactly on the numbers that are a mantissa times a power of ten, both
/// within the layout.
pub proof fn law_packable_iff_representable(amount: nat, exponent_len: nat, mantissa_len: nat)
    requires
        valid_layout(exponent_len, mantissa_len),
    ensures
        packable(amount, exponent_len, mantissa_len) <==> representable(
            amount,
            exponent_len,
            mantissa_len,
        ),
{
    let top = max_mantissa(mantissa_len);
    let limit = max_exponent(exponent_len);
    if packable(amount, exponent_len, mantissa_len) {
        let (m, e) = float_parts(amount, exponent_len, mantissa_len);
        lemma_unpacked_packed(amount, exponent_len, mantissa_len);
        lemma_float_parts_bounds(amount, exponent_len, mantissa_len);
        assert(amount == float_value(m, e));
    }
    if representable(amount, exponent_len, mantissa_len) {
        let (m0, e0) = choose|m: nat, e: nat|
            m <= top && e <= limit && amount == #[trigger] float_value(m, e);
        lemma_float_value_in_range(m0, e0, exponent_len, mantissa_len);
        let e = min_exponent(amount, top, 0, limit);
        lemma_min_exponent(amount, top, 0, limit);
        // The least exponent cannot lie beyond one that already reaches the amount.
        assert(e <= e0) by {
            if e > e0 {
                lemma_pow_nat_monotone(10, e0, (e - 1) as nat);
                assert(top * pow_nat(10, e0) <= top * pow_nat(10, (e - 1) as nat))
                    by (nonlinear_arith)
                    requires
                        pow_nat(10, e0) <= pow_nat(10, (e - 1) as nat),
                ;
            }
        }
        // So the amount is a multiple of 10^e, and rounding down loses nothing.
        let scale = pow_nat(10, e);
        let rest = pow_nat(10, (e0 - e) as nat);
        lemma_pow_nat_positive(10, e);
        lemma_pow_nat_adds(10, (e0 - e) as nat, e);
        assert((e0 - e) as nat + e == e0);
        assert(amount == (m0 * rest) * scale) by (nonlinear_arith)
            requires
                amount == m0 * (rest * scale),
        ;
        vstd::arithmetic::div_mod::lemma_div_multiples_vanish((m0 * rest) as int, scale as int);
        assert((m0 * rest) * scale == scale * (m0 * rest)) by (nonlinear_arith);
        assert(amount / scale == m0 * rest);
        assert(float_parts(amount, exponent_len, mantissa_len) == (m0 * rest, e));
        lemma_unpacked_packed(amount, exponent_len, mantissa_len);
    }
}

/// The largest amount of a layout is packable, and the next number is not.
pub proof fn law_packable_boundary(exponent_len: nat, mantissa_len: nat)
    requires
        valid_layout(exponent_len, mantissa_len),
    ensures
        packable(max_packable(exponent_len, mantissa_len), exponent_len, mantissa_len),
        !packable(max_packable(exponent_len, mantissa_len) + 1, exponent_len, mantissa_len),
{
    let top = max_mantissa(mantissa_len);
    let limit = max_exponent(exponent_len);
    assert(max_packable(exponent_len, mantissa_len) == float_value(top, limit));
    law_packable_iff_representable(
        max_packable(exponent_len, mantissa_len),
        exponent_len,
        mantissa_len,
    );
}

/// Zero packs to zero bytes.
pub proof fn law_zero_packs_to_zero_bytes(exponent_len: nat, mantissa_len: nat)
    requires
        valid_layout(exponent_len, mantissa_len),
    ensures
        packed(0, exponent_len, mantissa_len) == zero_bytes((exponent_len + mantissa_len) / 8),
{
    let top = max_mantissa(mantissa_len);
    lemma_pow_nat_positive(10, 0);
    assert(top * pow_nat(10, 0) >= 0);
    assert(min_exponent(0, top, 0, max_exponent(exponent_len)) == 0);
    assert(pow_nat(10, 0) == 1);
    assert(0nat / 1 == 0);
    assert(float_parts(0, exponent_len, mantissa_len) == (0nat, 0nat));
    assert(0 * pow_nat(2, exponent_len) == 0) by (nonlinear_arith);
    lemma_be_bytes_zero((exponent_len + mantissa_len) / 8);
}

/// The packed form of a token amount: 35 bits of mantissa, 5 of exponent, 5 bytes.
pub open spec fn token_amount_packed(amount: nat) -> Seq<u8> {
    packed(amount, AMOUNT_EXPONENT_BIT_WIDTH as nat, AMOUNT_MANTISSA_BIT_WIDTH as nat)
}

/// The packed form of a fee: 11 bits of mantissa, 5 of exponent, 2 bytes.
pub open spec fn fee_amount_packed(amount: nat) -> Seq<u8> {
    packed(amount, FEE_EXPONENT_BIT_WIDTH as nat, FEE_MANTISSA_BIT_WIDTH as nat)
}

/// The largest token amount that can be packed, `(2^35 - 1) * 10^31`.
pub open spec fn max_token_amount() -> nat {
    max_packable(AMOUNT_EXPONENT_BIT_WIDTH as nat, AMOUNT_MANTISSA_BIT_WIDTH as nat)
}

/// The largest fee that can be packed, `2047 * 10^31`.
pub open spec fn max_fee_amount() -> nat {
    max_packable(FEE_EXPONENT_BIT_WIDTH as nat, FEE_MANTISSA_BIT_WIDTH as nat)
}

/// A token amount that survives packing.
pub open spec fn token_amount_packable(amount: nat) -> bool {
    packable(amount, AMOUNT_EXPONENT_BIT_WIDTH as nat, AMOUNT_MANTISSA_BIT_WIDTH as nat)
}

/// A fee that survives packing.
pub open spec fn fee_amount_packable(amount: nat) -> bool {
    packable(amount, FEE_EXPONENT_BIT_WIDTH as nat, FEE_MANTISSA_BIT_WIDTH as nat)
}

/// The largest token amount that can be packed, as a big integer.
pub fn largest_token_amount() -> (n: BigUint)
    ensures
        biguint_value(n) == max_token_amount(),
{
    largest_amount(AMOUNT_EXPONENT_BIT_WIDTH, AMOUNT_MANTISSA_BIT_WIDTH)
}

/// The largest fee that can be packed, as a big integer.
pub fn largest_fee_amount() -> (n: BigUint)
    ensures
        biguint_value(n) == max_fee_amount(),
{
    largest_amount(FEE_EXPONENT_BIT_WIDTH, FEE_MANTISSA_BIT_WIDTH)
}

/// Packs a token amount into 5 bytes.
pub fn pack_token_amount(amount: &BigUint) -> (bytes: Vec<u8>)
    requires
        biguint_value(*amount) <= max_token_amount(),
    ensures
        bytes@ == token_amount_packed(biguint_value(*amount)),
        bytes@.len() == 5,
{
    proof {
        lemma_be_bytes_len(
            packed_word(
                biguint_value(*amount),
                AMOUNT_EXPONENT_BIT_WIDTH as nat,
                AMOUNT_MANTISSA_BIT_WIDTH as nat,
            ),
            5,
        );
    }
    pack(amount, AMOUNT_EXPONENT_BIT_WIDTH, AMOUNT_MANTISSA_BIT_WIDTH)
}

/// Packs a fee into 2 bytes.
pub fn pack_fee_amount(amount: &BigUint) -> (bytes: Vec<u8>)
    requires
        biguint_value(*amount) <= max_fee_amount(),
    ensures
        bytes@ == fee_amount_packed(biguint_value(*amount)),
        bytes@.len() == 2,
{
    proof {
        lemma_be_bytes_len(
            packed_word(
                biguint_value(*amount),
                FEE_EXPONENT_BIT_WIDTH as nat,
                FEE_MANTISSA_BIT_WIDTH as nat,
            ),
            2,
        );
    }
    pack(amount, FEE_EXPONENT_BIT_WIDTH, FEE_MANTISSA_BIT_WIDTH)
}

/// Reads a packed token amount; `None` unless `data` holds 5 bytes.
pub fn unpack_token_amount(data: &[u8]) -> (amount: Option<BigUint>)
    ensures
        data@.len() != 5 ==> amount is None,
        data@.len() == 5 ==> amount is Some && biguint_value(amount->0) == unpacked(
            data@,
            AMOUNT_EXPONENT_BIT_WIDTH as nat,
        ),
{
    unpack(data, AMOUNT_EXPONENT_BIT_WIDTH, AMOUNT_MANTISSA_BIT_WIDTH)
}

/// Reads a packed fee; `None` unless `data` holds 2 bytes.
pub fn unpack_fee_amount(data: &[u8]) -> (amount: Option<BigUint>)
    ensures
        data@.len() != 2 ==> amount is None,
        data@.len() == 2 ==> amount is Some && biguint_value(amount->0) == unpacked(
            data@,
            FEE_EXPONENT_BIT_WIDTH as nat,
        ),
{
    unpack(data, FEE_EXPONENT_BIT_WIDTH, FEE_MANTISSA_BIT_WIDTH)
}

/// Whether a token amount can be packed without loss.
pub fn is_token_amount_packable(amount: &BigUint) -> (r: bool)
    ensures
        r == token_amount_packable(biguint_value(*amount)),
{
    is_packable(amount, AMOUNT_EXPONENT_BIT_WIDTH, AMOUNT_MANTISSA_BIT_WIDTH)
}

/// Whether a fee can be packed without loss.
pub fn is_fee_amount_packable(amount: &BigUint) -> (r: bool)
    ensures
        r == fee_amount_packable(biguint_value(*amount)),
{
    is_packable(amount, FEE_EXPONENT_BIT_WIDTH, FEE_MANTISSA_BIT_WIDTH)
}

} // verus!
