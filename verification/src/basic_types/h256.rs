use crate::basic_types::error::TypeError;
use crate::basic_types::hash_string::{parse_hash, parsed_hash, prefixed_hex, to_prefixed_hex};
use crate::bytes::{array_from, zero_bytes};
use vstd::prelude::*;

verus! {

/// A 32-byte hash.
#[derive(Debug, Copy, Clone, PartialEq, Eq, Hash, PartialOrd, Ord)]
pub struct H256 {
    pub data: [u8; 32],
}

impl View for H256 {
    type V = Seq<u8>;

    open spec fn view(&self) -> Seq<u8> {
        self.data@
    }
}

impl H256 {
    /// The hash of 32 zero bytes.
    pub fn zero() -> (h: H256)
        ensures
            h@ == zero_bytes(32),
    {
        let h = H256 { data: [0u8; 32] };
        assert(h@ =~= zero_bytes(32));
        h
    }

    /// Makes a hash of exactly 32 bytes; `None` for any other number.
    pub fn from_slice(slice: &[u8]) -> (result: Option<H256>)
        ensures
            slice@.len() != 32 ==> result is None,
            slice@.len() == 32 ==> result is Some && result->0@ == slice@,
    {
        if slice.len() != 32 {
            None
        } else {
            let data: [u8; 32] = array_from(slice, 0);
            assert(data@ =~= slice@);
            Some(H256 { data })
        }
    }

    /// The 32 bytes of the hash.
    pub fn as_bytes(&self) -> (bytes: &[u8])
        ensures
            bytes@ == self@,
    {
        self.data.as_slice()
    }

    /// Reads a hash from `0x` and 64 hex digits.
    ///
    /// Fails with `ParseError` when the prefix is missing or the rest is not hex, and with
    /// `SizeMismatch` when the digits do not make 32 bytes.
    pub fn into_custom(val: String) -> (r: Result<H256, TypeError>)
        ensures
            match r {
                Ok(hash) => parsed_hash(val@) == Ok::<Seq<u8>, TypeError>(hash@),
                Err(e) => parsed_hash(val@) == Err::<Seq<u8>, TypeError>(e),
            },
    {
        match parse_hash(val.as_str()) {
            Ok(data) => Ok(H256 { data }),
            Err(e) => Err(e),
        }
    }

    /// The hash as `0x` and 64 lower-case hex digits.
    pub fn from_custom(obj: H256) -> (s: String)
        ensures
            s@ == prefixed_hex(obj@),
    {
        to_prefixed_hex(obj.data.as_slice())
    }
}

} // verus!
