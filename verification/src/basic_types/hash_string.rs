//! The string form of hashes, keys and addresses: `0x` and lower-case hex digits.
use crate::basic_types::error::TypeError;
use crate::bytes::array_from;
use crate::basic_types::hex_string::{
    hex_decode, hex_decoded, hex_encode, hex_encoded, is_hex_string, law_hex_round_trip,
};
use vstd::prelude::*;
use vstd::string::*;

verus! {

/// The string form of `bytes`: `0x`, then two lower-case hex digits for each byte.
pub open spec fn prefixed_hex(bytes: Seq<u8>) -> Seq<char> {
    seq!['0', 'x'] + hex_encoded(bytes)
}

/// Whether `s` begins with `0x`.
pub open spec fn has_zerox_prefix(s: Seq<char>) -> bool {
    s.len() >= 2 && s[0] == '0' && s[1] == 'x'
}

/// The bytes that `s` is the string form of, if it is one: `0x` and an even number of hex
/// digits of either case.
pub open spec fn parsed_prefixed_hex(s: Seq<char>) -> Option<Seq<u8>> {
    if has_zerox_prefix(s) && is_hex_string(s.skip(2)) {
        Some(hex_decoded(s.skip(2)))
    } else {
        None
    }
}

/// What reading a value of `len` bytes from `s` gives: the bytes, or the reason why not.
pub open spec fn parsed_hex(s: Seq<char>, len: nat) -> Result<Seq<u8>, TypeError> {
    match parsed_prefixed_hex(s) {
        None => Err(TypeError::ParseError),
        Some(bytes) => if bytes.len() != len {
            Err(TypeError::SizeMismatch)
        } else {
            Ok(bytes)
        },
    }
}

/// What reading a 32-byte value from `s` gives.
pub open spec fn parsed_hash(s: Seq<char>) -> Result<Seq<u8>, TypeError> {
    parsed_hex(s, 32)
}

/// Reading the string form of bytes gives those bytes back.
pub proof fn law_prefixed_hex_round_trip(bytes: Seq<u8>)
    ensures
        parsed_prefixed_hex(prefixed_hex(bytes)) == Some(bytes),
        parsed_hex(prefixed_hex(bytes), bytes.len()) == Ok::<Seq<u8>, TypeError>(bytes),
{
    let s = prefixed_hex(bytes);
    assert(s.skip(2) =~= hex_encoded(bytes));
    law_hex_round_trip(bytes);
}

/// Writes `bytes` as `0x` and lower-case hex digits.
pub fn to_prefixed_hex(bytes: &[u8]) -> (s: String)
    ensures
        s@ == prefixed_hex(bytes@),
{
    let digits = hex_encode(bytes);
    let mut s = String::from_str("0x");
    proof {
        reveal_strlit("0x");
        assert("0x"@ =~= seq!['0', 'x']);
    }
    s.append(digits.as_str());
    s
}

/// Reads bytes from `0x` and hex digits, whatever their number; `ParseError` when the
/// prefix is missing or the rest is not an even number of hex digits.
pub fn parse_prefixed_hex(s: &str) -> (r: Result<Vec<u8>, TypeError>)
    ensures
        match r {
            Ok(bytes) => parsed_prefixed_hex(s@) == Some(bytes@),
            Err(e) => e == TypeError::ParseError && parsed_prefixed_hex(s@) is None,
        },
{
    let n = s.unicode_len();
    if n < 2 || s.get_char(0) != '0' || s.get_char(1) != 'x' {
        return Err(TypeError::ParseError);
    }
    let digits = s.substring_char(2, n);
    assert(digits@ =~= s@.skip(2));
    match hex_decode(digits) {
        Err(_) => Err(TypeError::ParseError),
        Ok(bytes) => Ok(bytes),
    }
}

/// Reads 32 bytes from their string form.
pub fn parse_hash(s: &str) -> (r: Result<[u8; 32], TypeError>)
    ensures
        match r {
            Ok(data) => parsed_hash(s@) == Ok::<Seq<u8>, TypeError>(data@),
            Err(e) => parsed_hash(s@) == Err::<Seq<u8>, TypeError>(e),
        },
{
    match parse_prefixed_hex(s) {
        Err(e) => Err(e),
        Ok(bytes) => {
            if bytes.len() != 32 {
                Err(TypeError::SizeMismatch)
            } else {
                let data: [u8; 32] = array_from(bytes.as_slice(), 0);
                assert(data@ =~= bytes@);
                Ok(data)
            }
        },
    }
}

} // verus!
