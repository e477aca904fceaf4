//! Fixed-width big-endian byte forms.
//!
//! Every scalar field of a transaction is written as a fixed number of bytes, most significant
//! first. This module defines that form once, as a function from a number and a width to a
//! byte sequence, together with its inverse and the facts that relate the two.
use vstd::prelude::*;

verus! {

/// `base` to the power `e`.
pub open spec fn pow_nat(base: nat, e: nat) -> nat
    decreases e,
{
    if e == 0 {
        1
    } else {
        base * pow_nat(base, (e - 1) as nat)
    }
}

/// The number whose base-256 digits, most significant first, are `bytes`.
pub open spec fn be_value(bytes: Seq<u8>) -> nat
    decreases bytes.len(),
{
    if bytes.len() == 0 {
        0
    } else {
        be_value(bytes.drop_last()) * 256 + bytes.last() as nat
    }
}

/// The `n` low-order base-256 digits of `v`, most significant first.
pub open spec fn be_bytes(v: nat, n: nat) -> Seq<u8>
    decreases n,
{
    if n == 0 {
        Seq::empty()
    } else {
        be_bytes(v / 256, (n - 1) as nat).push((v % 256) as u8)
    }
}

/// `n` zero bytes.
pub open spec fn zero_bytes(n: nat) -> Seq<u8> {
    Seq::new(n, |i: int| 0u8)
}

/// `bytes` preceded by as many zero bytes as are needed to make `size` bytes in all.
pub open spec fn padded_front(bytes: Seq<u8>, size: nat) -> Seq<u8>
    recommends
        bytes.len() <= size,
{
    zero_bytes((size - bytes.len()) as nat) + bytes
}

/// `bytes` cut or filled with zero bytes at the end so that it holds exactly `size` bytes.
pub open spec fn resized(bytes: Seq<u8>, size: nat) -> Seq<u8> {
    if bytes.len() >= size {
        bytes.subrange(0, size as int)
    } else {
        bytes + zero_bytes((size - bytes.len()) as nat)
    }
}

/// A power is never zero when its base is not.
pub proof fn lemma_pow_nat_positive(base: nat, e: nat)
    requires
        base > 0,
    ensures
        pow_nat(base, e) > 0,
    decreases e,
{
    if e > 0 {
        lemma_pow_nat_positive(base, (e - 1) as nat);
        assert(base * pow_nat(base, (e - 1) as nat) > 0) by (nonlinear_arith)
            requires
                base > 0,
                pow_nat(base, (e - 1) as nat) > 0,
        ;
    }
}

/// Powers of one base grow with the exponent.
pub proof fn lemma_pow_nat_monotone(base: nat, e1: nat, e2: nat)
    requires
        base > 0,
        e1 <= e2,
    ensures
        pow_nat(base, e1) <= pow_nat(base, e2),
    decreases e2,
{
    if e1 < e2 {
        lemma_pow_nat_monotone(base, e1, (e2 - 1) as nat);
        lemma_pow_nat_positive(base, (e2 - 1) as nat);
        assert(pow_nat(base, (e2 - 1) as nat) <= base * pow_nat(base, (e2 - 1) as nat))
            by (nonlinear_arith)
            requires
                base > 0,
        ;
    }
}

/// Exponents add when powers of one base are multiplied.
pub proof fn lemma_pow_nat_adds(base: nat, e1: nat, e2: nat)
    ensures
        pow_nat(base, e1 + e2) == pow_nat(base, e1) * pow_nat(base, e2),
    decreases e1,
{
    if e1 == 0 {
        assert(pow_nat(base, e1) == 1);
        assert(1 * pow_nat(base, e2) == pow_nat(base, e2));
    } else {
        lemma_pow_nat_adds(base, (e1 - 1) as nat, e2);
        let a = pow_nat(base, (e1 - 1) as nat);
        let b = pow_nat(base, e2);
        assert(pow_nat(base, e1 + e2) == base * pow_nat(base, (e1 + e2 - 1) as nat));
        assert((e1 + e2 - 1) as nat == (e1 - 1) as nat + e2);
        assert(base * (a * b) == (base * a) * b) by (nonlinear_arith);
    }
}

/// A big-endian form of `n` digits has `n` bytes.
pub proof fn lemma_be_bytes_len(v: nat, n: nat)
    ensures
        be_bytes(v, n).len() == n,
    decreases n,
{
    if n > 0 {
        lemma_be_bytes_len(v / 256, (n - 1) as nat);
    }
}

/// The byte at place `i` of a big-endian form is the digit of weight `256^(n - 1 - i)`.
pub proof fn lemma_be_bytes_index(v: nat, n: nat, i: int)
    requires
        0 <= i < n,
    ensures
        be_bytes(v, n).len() == n,
        be_bytes(v, n)[i] as nat == (v / pow_nat(256, (n - 1 - i) as nat)) % 256,
    decreases n,
{
    lemma_be_bytes_len(v, n);
    lemma_be_bytes_len(v / 256, (n - 1) as nat);
    if i == n - 1 {
        assert(pow_nat(256, 0) == 1);
        assert(v / 1 == v);
    } else {
        lemma_be_bytes_index(v / 256, (n - 1) as nat, i);
        let k = (n - 2 - i) as nat;
        let p = pow_nat(256, k);
        lemma_pow_nat_positive(256, k);
        assert(pow_nat(256, (n - 1 - i) as nat) == 256 * p);
        assert((v / 256) / p == v / (256 * p)) by {
            vstd::arithmetic::div_mod::lemma_div_denominator(v as int, 256, p as int);
        }
    }
}

/// Reading back a big-endian form gives the number it was made from, cut to its width.
pub proof fn lemma_be_value_of_be_bytes(v: nat, n: nat)
    ensures
        be_value(be_bytes(v, n)) == v % pow_nat(256, n),
    decreases n,
{
    if n == 0 {
        assert(pow_nat(256, 0) == 1);
        assert(v % 1 == 0);
    } else {
        let rest = be_bytes(v / 256, (n - 1) as nat);
        let whole = be_bytes(v, n);
        lemma_be_value_of_be_bytes(v / 256, (n - 1) as nat);
        assert(whole.drop_last() =~= rest);
        assert(whole.last() == (v % 256) as u8);
        let p = pow_nat(256, (n - 1) as nat);
        lemma_pow_nat_positive(256, (n - 1) as nat);
        assert(pow_nat(256, n) == 256 * p);
        // v % (256 * p) == 256 * ((v / 256) % p) + v % 256
        vstd::arithmetic::div_mod::lemma_breakdown(v as int, 256, p as int);
        let q = (v / 256) % p;
        assert(q * 256 == 256 * q) by (nonlinear_arith);
    }
}

/// A number that fits the width is read back unchanged.
pub proof fn lemma_be_value_of_be_bytes_small(v: nat, n: nat)
    requires
        v < pow_nat(256, n),
    ensures
        be_value(be_bytes(v, n)) == v,
{
    lemma_be_value_of_be_bytes(v, n);
    vstd::arithmetic::div_mod::lemma_small_mod(v, pow_nat(256, n));
}

/// The number that `bytes` stands for is below `256^len`.
pub proof fn lemma_be_value_bound(bytes: Seq<u8>)
    ensures
        be_value(bytes) < pow_nat(256, bytes.len()),
    decreases bytes.len(),
{
    if bytes.len() > 0 {
        lemma_be_value_bound(bytes.drop_last());
        let p = pow_nat(256, (bytes.len() - 1) as nat);
        assert(pow_nat(256, bytes.len()) == 256 * p);
    }
}

/// Writing the number that `bytes` stands for, at the same width, gives `bytes` again.
pub proof fn lemma_be_bytes_of_be_value(bytes: Seq<u8>)
    ensures
        be_bytes(be_value(bytes), bytes.len()) == bytes,
    decreases bytes.len(),
{
    if bytes.len() == 0 {
        assert(be_bytes(be_value(bytes), 0) =~= bytes);
    } else {
        let init = bytes.drop_last();
        lemma_be_bytes_of_be_value(init);
        let v = be_value(bytes);
        assert(v == be_value(init) * 256 + bytes.last() as nat);
        assert(v / 256 == be_value(init) && v % 256 == bytes.last() as nat) by {
            vstd::arithmetic::div_mod::lemma_fundamental_div_mod_converse(
                v as int,
                256,
                be_value(init) as int,
                bytes.last() as int,
            );
        }
        assert(be_bytes(v, bytes.len()) =~= init.push(bytes.last()));
        assert(init.push(bytes.last()) =~= bytes);
    }
}

/// Zero bytes stand for zero.
pub proof fn lemma_be_value_zero_bytes(n: nat)
    ensures
        be_value(zero_bytes(n)) == 0,
    decreases n,
{
    if n > 0 {
        assert(zero_bytes(n).drop_last() =~= zero_bytes((n - 1) as nat));
        lemma_be_value_zero_bytes((n - 1) as nat);
    }
}

/// The big-endian form of zero is all zero bytes.
pub proof fn lemma_be_bytes_zero(n: nat)
    ensures
        be_bytes(0, n) == zero_bytes(n),
    decreases n,
{
    if n == 0 {
        assert(be_bytes(0, 0) =~= zero_bytes(0));
    } else {
        lemma_be_bytes_zero((n - 1) as nat);
        assert(0nat / 256 == 0);
        assert(be_bytes(0, n) =~= zero_bytes(n));
    }
}

/// Joining two byte strings shifts the first by the length of the second.
pub proof fn lemma_be_value_concat(a: Seq<u8>, b: Seq<u8>)
    ensures
        be_value(a + b) == be_value(a) * pow_nat(256, b.len()) + be_value(b),
    decreases b.len(),
{
    if b.len() == 0 {
        assert(a + b =~= a);
        assert(pow_nat(256, 0) == 1);
        assert(be_value(a) * 1 == be_value(a)) by (nonlinear_arith);
    } else {
        let b0 = b.drop_last();
        lemma_be_value_concat(a, b0);
        assert((a + b).drop_last() =~= a + b0);
        assert((a + b).last() == b.last());
        let p = pow_nat(256, b0.len());
        assert(pow_nat(256, b.len()) == 256 * p);
        assert((be_value(a) * p + be_value(b0)) * 256 + b.last() as nat == be_value(a) * (256 * p)
            + (be_value(b0) * 256 + b.last() as nat)) by (nonlinear_arith);
    }
}

/// Zero bytes in front do not change the number that a byte string stands for.
pub proof fn lemma_be_value_padded_front(bytes: Seq<u8>, size: nat)
    requires
        bytes.len() <= size,
    ensures
        be_value(padded_front(bytes, size)) == be_value(bytes),
        padded_front(bytes, size).len() == size,
{
    let z = zero_bytes((size - bytes.len()) as nat);
    lemma_be_value_concat(z, bytes);
    lemma_be_value_zero_bytes((size - bytes.len()) as nat);
    assert(0 * pow_nat(256, bytes.len()) == 0) by (nonlinear_arith);
}

/// A byte string padded in front to `size` bytes is the `size`-byte form of its number.
pub proof fn lemma_padded_front_is_be_bytes(bytes: Seq<u8>, size: nat)
    requires
        bytes.len() <= size,
    ensures
        padded_front(bytes, size) == be_bytes(be_value(bytes), size),
{
    lemma_be_value_padded_front(bytes, size);
    lemma_be_bytes_of_be_value(padded_front(bytes, size));
}

/// A byte string that does not begin with a zero byte stands for a number of at least
/// `256^(len - 1)`.
pub proof fn lemma_be_value_lower_bound(bytes: Seq<u8>)
    requires
        bytes.len() >= 1,
        bytes[0] != 0u8,
    ensures
        be_value(bytes) >= pow_nat(256, (bytes.len() - 1) as nat),
    decreases bytes.len(),
{
    if bytes.len() == 1 {
        assert(bytes.drop_last().len() == 0);
        assert(be_value(bytes.drop_last()) == 0);
        assert(pow_nat(256, 0) == 1);
    } else {
        let init = bytes.drop_last();
        assert(init[0] == bytes[0]);
        lemma_be_value_lower_bound(init);
        let p = pow_nat(256, (init.len() - 1) as nat);
        assert(pow_nat(256, (bytes.len() - 1) as nat) == 256 * p);
    }
}

/// Two joined byte strings that are equal, and whose second parts are equally long, are
/// equal part by part.
pub proof fn lemma_concat_parts(x1: Seq<u8>, y1: Seq<u8>, x2: Seq<u8>, y2: Seq<u8>)
    requires
        x1 + y1 == x2 + y2,
        y1.len() == y2.len(),
    ensures
        x1 == x2,
        y1 == y2,
{
    let whole = x1 + y1;
    assert(whole.len() == x1.len() + y1.len());
    assert((x2 + y2).len() == x2.len() + y2.len());
    assert(x1.len() == x2.len());
    assert(x1 =~= whole.subrange(0, x1.len() as int));
    assert(x2 =~= whole.subrange(0, x1.len() as int));
    assert(y1 =~= whole.subrange(x1.len() as int, whole.len() as int));
    assert(y2 =~= whole.subrange(x1.len() as int, whole.len() as int));
}

/// Numbers that fit `n` bytes and have the same `n`-byte form are the same number.
pub proof fn lemma_be_bytes_injective(a: nat, b: nat, n: nat)
    requires
        a < pow_nat(256, n),
        b < pow_nat(256, n),
        be_bytes(a, n) == be_bytes(b, n),
    ensures
        a == b,
{
    lemma_be_value_of_be_bytes_small(a, n);
    lemma_be_value_of_be_bytes_small(b, n);
}

/// Left-pads `bytes` with zero bytes up to `size` bytes in total.
pub fn pad_front(bytes: &[u8], size: usize) -> (result: Vec<u8>)
    requires
        bytes@.len() <= size,
    ensures
        result@ == padded_front(bytes@, size as nat),
{
    let mut result: Vec<u8> = Vec::new();
    let gap: usize = size - bytes.len();
    let mut i: usize = 0;
    while i < size
        invariant
            gap == size - bytes@.len(),
            bytes@.len() <= size,
            i <= size,
            result@.len() == i,
            forall|j: int| 0 <= j < i && j < gap ==> result@[j] == 0u8,
            forall|j: int| gap <= j < i ==> result@[j] == bytes@[j - gap],
        decreases size - i,
    {
        if i < gap {
            result.push(0u8);
        } else {
            result.push(bytes[i - gap]);
        }
        i = i + 1;
    }
    assert(result@ =~= padded_front(bytes@, size as nat));
    result
}

/// The `n` low-order bytes of `v`, most significant first.
pub fn to_be_bytes(v: u128, n: usize) -> (result: Vec<u8>)
    ensures
        result@ == be_bytes(v as nat, n as nat),
{
    let mut result: Vec<u8> = Vec::new();
    let mut k: usize = 0;
    while k < n
        invariant
            k <= n,
            result@.len() == k,
            forall|j: int| 0 <= j < k ==> result@[j] == 0u8,
        decreases n - k,
    {
        result.push(0u8);
        k = k + 1;
    }
    let mut rest: u128 = v;
    let mut i: usize = n;
    proof {
        assert(pow_nat(256, (n - i) as nat) == 1);
        assert((v as nat) / 1 == v as nat);
        lemma_be_bytes_len(v as nat, n as nat);
    }
    while i > 0
        invariant
            i <= n,
            result@.len() == n,
            be_bytes(v as nat, n as nat).len() == n,
            rest as nat == (v as nat) / pow_nat(256, (n - i) as nat),
            forall|j: int| i <= j < n ==> result@[j] == be_bytes(v as nat, n as nat)[j],
        decreases i,
    {
        let digit: u8 = (rest % 256) as u8;
        proof {
            lemma_be_bytes_index(v as nat, n as nat, (i - 1) as int);
            let p = pow_nat(256, (n - i) as nat);
            lemma_pow_nat_positive(256, (n - i) as nat);
            assert(pow_nat(256, (n - i + 1) as nat) == 256 * p);
            assert(((v as nat) / p) / 256 == (v as nat) / (p * 256)) by {
                vstd::arithmetic::div_mod::lemma_div_denominator(v as int, p as int, 256);
            }
            assert(p * 256 == 256 * p) by (nonlinear_arith);
        }
        result.set(i - 1, digit);
        rest = rest / 256;
        i = i - 1;
    }
    proof {
        lemma_be_bytes_len(v as nat, n as nat);
        assert(result@ =~= be_bytes(v as nat, n as nat));
    }
    result
}

/// `256^16` is `2^128`, and `256^8` is `2^64`.
pub proof fn lemma_pow256_values()
    ensures
        pow_nat(256, 1) == 0x100,
        pow_nat(256, 2) == 0x1_0000,
        pow_nat(256, 4) == 0x1_0000_0000,
        pow_nat(256, 8) == 0x1_0000_0000_0000_0000,
        pow_nat(256, 15) == 0x1_0000_0000_0000_0000_0000_0000_0000_00,
        pow_nat(256, 16) == 0x1_0000_0000_0000_0000_0000_0000_0000_0000,
{
    assert(pow_nat(256, 1) == 0x100) by {
        reveal_with_fuel(pow_nat, 2);
    }
    lemma_pow_nat_adds(256, 1, 1);
    assert(pow_nat(256, 2) == 0x1_0000);
    lemma_pow_nat_adds(256, 2, 2);
    assert(pow_nat(256, 4) == 0x1_0000_0000);
    lemma_pow_nat_adds(256, 4, 4);
    assert(pow_nat(256, 8) == 0x1_0000_0000_0000_0000);
    lemma_pow_nat_adds(256, 8, 4);
    lemma_pow_nat_adds(256, 12, 2);
    lemma_pow_nat_adds(256, 14, 1);
    assert(pow_nat(256, 15) == 0x1_0000_0000_0000_0000_0000_0000_0000_00);
    lemma_pow_nat_adds(256, 15, 1);
}

/// The number whose big-endian form is `bytes`, for at most 16 bytes.
pub fn from_be_bytes(bytes: &[u8]) -> (v: u128)
    requires
        bytes@.len() <= 16,
    ensures
        v as nat == be_value(bytes@),
{
    let mut v: u128 = 0;
    let mut i: usize = 0;
    while i < bytes.len()
        invariant
            i <= bytes@.len() <= 16,
            v as nat == be_value(bytes@.subrange(0, i as int)),
        decreases bytes@.len() - i,
    {
        proof {
            let head = bytes@.subrange(0, i as int);
            let next = bytes@.subrange(0, i as int + 1);
            assert(next.drop_last() =~= head);
            assert(next.last() == bytes@[i as int]);
            lemma_be_value_bound(head);
            lemma_pow_nat_monotone(256, i as nat, 15);
            lemma_pow256_values();
        }
        v = v * 256 + bytes[i] as u128;
        i = i + 1;
    }
    proof {
        assert(bytes@.subrange(0, bytes@.len() as int) =~= bytes@);
    }
    v
}

/// The `N` bytes of `bytes` that begin at `from`.
pub fn array_from<const N: usize>(bytes: &[u8], from: usize) -> (a: [u8; N])
    requires
        from + N <= bytes@.len(),
    ensures
        a@ == bytes@.subrange(from as int, from + N),
{
    let mut a: [u8; N] = [0u8; N];
    let len: usize = bytes.len();
    let mut i: usize = 0;
    while i < N
        invariant
            i <= N,
            from + N <= bytes@.len() == len,
            forall|j: int| 0 <= j < i ==> a@[j] == bytes@[from + j],
        decreases N - i,
    {
        a[i] = bytes[from + i];
        i = i + 1;
    }
    assert(a@ =~= bytes@.subrange(from as int, from + N));
    a
}

/// Whether two byte strings are the same.
pub fn same_bytes(a: &[u8], b: &[u8]) -> (r: bool)
    ensures
        r == (a@ == b@),
{
    if a.len() != b.len() {
        return false;
    }
    let mut i: usize = 0;
    while i < a.len()
        invariant
            i <= a@.len(),
            a@.len() == b@.len(),
            forall|j: int| 0 <= j < i ==> a@[j] == b@[j],
        decreases a@.len() - i,
    {
        if a[i] != b[i] {
            return false;
        }
        i = i + 1;
    }
    assert(a@ =~= b@);
    true
}

/// Appends the bytes of `src` to `out`.
pub fn extend(out: &mut Vec<u8>, src: &[u8])
    ensures
        final(out)@ == old(out)@ + src@,
{
    let mut i: usize = 0;
    while i < src.len()
        invariant
            i <= src@.len(),
            out@ == old(out)@ + src@.subrange(0, i as int),
        decreases src@.len() - i,
    {
        out.push(src[i]);
        proof {
            assert(src@.subrange(0, i as int).push(src@[i as int]) =~= src@.subrange(
                0,
                i as int + 1,
            ));
        }
        i = i + 1;
    }
    proof {
        assert(src@.subrange(0, src@.len() as int) =~= src@);
    }
}

} // verus!
