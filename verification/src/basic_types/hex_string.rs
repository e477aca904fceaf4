//! Hex strings.
//!
//! Hashes and keys cross the library's boundary as lower-case hex strings. Encoding and
//! decoding are done by the `hex` crate; this module states what the two do, over
//! sequences of characters, and proves from those statements that decoding undoes encoding.
use hex::FromHexError;
use vstd::prelude::*;

verus! {

/// `hex::FromHexError`, the reason why `hex::decode` refused a string. It is only passed on.
#[verifier::external_type_specification]
#[verifier::external_body]
pub struct ExFromHexError(FromHexError);

/// The lower-case hex digit for `n < 16`.
pub open spec fn hex_digit(n: nat) -> char
    recommends
        n < 16,
{
    if n < 10 {
        (48 + n) as u8 as char
    } else {
        (87 + n) as u8 as char
    }
}

/// The value of a hex digit, lower or upper case; `None` for any other character.
pub open spec fn hex_digit_value(c: char) -> Option<nat> {
    let u = c as u32;
    if 48 <= u <= 57 {
        Some((u - 48) as nat)
    } else if 97 <= u <= 102 {
        Some((u - 87) as nat)
    } else if 65 <= u <= 70 {
        Some((u - 55) as nat)
    } else {
        None
    }
}

/// Two lower-case hex digits for each byte, the high half first.
pub open spec fn hex_encoded(bytes: Seq<u8>) -> Seq<char> {
    Seq::new(
        2 * bytes.len(),
        |i: int|
            if i % 2 == 0 {
                hex_digit((bytes[i / 2] / 16) as nat)
            } else {
                hex_digit((bytes[i / 2] % 16) as nat)
            },
    )
}

/// An even number of hex digits.
pub open spec fn is_hex_string(s: Seq<char>) -> bool {
    &&& s.len() % 2 == 0
    &&& forall|i: int| 0 <= i < s.len() ==> (#[trigger] hex_digit_value(s[i])) is Some
}

/// One byte for each two hex digits.
pub open spec fn hex_decoded(s: Seq<char>) -> Seq<u8>
    recommends
        is_hex_string(s),
{
    Seq::new(
        s.len() / 2,
        |i: int| (hex_digit_value(s[2 * i])->0 * 16 + hex_digit_value(s[2 * i + 1])->0) as u8,
    )
}

/// `hex::encode`: each byte becomes two lower-case hex digits.
#[verifier::external_body]
pub(crate) fn hex_encode(data: &[u8]) -> (s: String)
    ensures
        s@ == hex_encoded(data@),
{
    hex::encode(data)
}

/// `hex::decode`: succeeds exactly on an even number of hex digits of either case, and then
/// gives one byte for each two of them.
#[verifier::external_body]
pub(crate) fn hex_decode(s: &str) -> (r: Result<Vec<u8>, FromHexError>)
    ensures
        is_hex_string(s@) ==> r is Ok && r->Ok_0@ == hex_decoded(s@),
        !is_hex_string(s@) ==> r is Err,
{
    hex::decode(s)
}

/// What `hex_encoded` makes is a hex string, and decoding it gives the bytes back.
pub proof fn law_hex_round_trip(bytes: Seq<u8>)
    ensures
        is_hex_string(hex_encoded(bytes)),
        hex_decoded(hex_encoded(bytes)) == bytes,
{
    let s = hex_encoded(bytes);
    assert forall|n: nat| n < 16 implies hex_digit_value(#[trigger] hex_digit(n)) == Some(n) by {}
    assert forall|i: int| 0 <= i < s.len() implies (#[trigger] hex_digit_value(s[i])) is Some by {
        let b = bytes[i / 2];
        assert(b / 16 < 16 && b % 16 < 16);
    }
    assert forall|i: int| 0 <= i < bytes.len() implies hex_decoded(s)[i] == bytes[i] by {
        let b = bytes[i];
        assert((2 * i) / 2 == i && (2 * i + 1) / 2 == i);
        assert((2 * i) % 2 == 0 && (2 * i + 1) % 2 == 1);
        assert(s[2 * i] == hex_digit((b / 16) as nat));
        assert(s[2 * i + 1] == hex_digit((b % 16) as nat));
        assert(b / 16 < 16 && b % 16 < 16);
        assert((b / 16) * 16 + b % 16 == b);
    }
    assert(hex_decoded(s) =~= bytes);
}

} // verus!
