use crate::basic_types::error::TypeError;
use crate::basic_types::hash_string::{
    law_prefixed_hex_round_trip, parse_hash, parsed_hash, prefixed_hex, to_prefixed_hex,
};
use crate::bytes::{array_from, zero_bytes};
use crate::crypto::digest::{sha256, sha256_bytes};
use vstd::prelude::*;

verus! {

/// Transaction hash: the SHA-256 digest of a transaction's canonical bytes.
#[derive(Debug, Copy, Clone, PartialEq, Eq, Hash, PartialOrd, Ord)]
pub struct TxHash {
    pub data: [u8; 32],
}

impl View for TxHash {
    type V = Seq<u8>;

    open spec fn view(&self) -> Seq<u8> {
        self.data@
    }
}

impl Default for TxHash {
    fn default() -> (result: TxHash)
        ensures
            result@ == zero_bytes(32),
    {
        let result = TxHash { data: [0u8; 32] };
        assert(result@ =~= zero_bytes(32));
        result
    }
}

/// Reading the string form of a hash gives the hash back.
pub proof fn law_tx_hash_string_round_trip(hash: TxHash)
    ensures
        parsed_hash(prefixed_hex(hash@)) == Ok::<Seq<u8>, TypeError>(hash@),
{
    law_prefixed_hex_round_trip(hash@);
}

impl TxHash {
    /// Reads a transaction hash from its byte sequence representation.
    ///
    /// Returns `None` if the slice does not hold exactly 32 bytes.
    pub fn from_slice(slice: &[u8]) -> (result: Option<TxHash>)
        ensures
            slice@.len() != 32 ==> result is None,
            slice@.len() == 32 ==> result is Some && result->0@ == slice@,
    {
        if slice.len() != 32 {
            None
        } else {
            let data: [u8; 32] = array_from(slice, 0);
            assert(data@ =~= slice@);
            Some(TxHash { data })
        }
    }

    /// The hash of the transaction whose canonical form is `bytes`.
    pub fn of_bytes(bytes: &[u8]) -> (hash: TxHash)
        ensures
            hash@ == sha256(bytes@),
    {
        let digest = sha256_bytes(bytes);
        TxHash { data: array_from(digest.as_slice(), 0) }
    }

    /// The 32 bytes of the hash.
    pub fn as_ref(&self) -> (result: &[u8])
        ensures
            result@ == self@,
    {
        self.data.as_slice()
    }

    /// The hash as `0x` and 64 lower-case hex digits.
    pub fn to_string(&self) -> (s: String)
        ensures
            s@ == prefixed_hex(self@),
    {
        to_prefixed_hex(self.data.as_slice())
    }

    /// Reads a hash from `0x` and 64 hex digits.
    ///
    /// Fails with `ParseError` when the prefix is missing or the rest is not hex, and with
    /// `SizeMismatch` when the digits do not make 32 bytes.
    pub fn from_str(s: &str) -> (r: Result<TxHash, TypeError>)
        ensures
            match r {
                Ok(hash) => parsed_hash(s@) == Ok::<Seq<u8>, TypeError>(hash@),
                Err(e) => parsed_hash(s@) == Err::<Seq<u8>, TypeError>(e),
            },
    {
        match parse_hash(s) {
            Ok(data) => Ok(TxHash { data }),
            Err(e) => Err(e),
        }
    }
}

} // verus!
