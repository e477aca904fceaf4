use crate::basic_types::error::TypeError;
use crate::basic_types::hash_string::{
    parse_prefixed_hex, parsed_prefixed_hex, prefixed_hex, to_prefixed_hex,
};
use crate::bytes::extend;
use vstd::prelude::*;

verus! {

/// An address on a layer-one chain: 20 bytes on the chains of the EVM, 32 on the others.
#[derive(Debug, PartialEq, Eq)]
pub struct ZkLinkAddress {
    data: Vec<u8>,
}

/// The lengths that an address can have.
pub open spec fn is_address_len(len: nat) -> bool {
    len == 20 || len == 32
}

impl View for ZkLinkAddress {
    type V = Seq<u8>;

    closed spec fn view(&self) -> Seq<u8> {
        self.data@
    }
}

impl Clone for ZkLinkAddress {
    fn clone(&self) -> (r: ZkLinkAddress)
        ensures
            r@ == self@,
    {
        proof {
            use_type_invariant(self);
        }
        let mut data: Vec<u8> = Vec::new();
        extend(&mut data, self.data.as_slice());
        ZkLinkAddress { data }
    }
}

impl ZkLinkAddress {
    #[verifier::type_invariant]
    spec fn has_address_len(self) -> bool {
        is_address_len(self.data@.len())
    }

    /// Makes an address of 20 or 32 bytes; `SizeMismatch` for any other number.
    pub fn from_slice(slice: &[u8]) -> (r: Result<ZkLinkAddress, TypeError>)
        ensures
            match r {
                Ok(address) => address@ == slice@ && is_address_len(slice@.len()),
                Err(e) => e == TypeError::SizeMismatch && !is_address_len(slice@.len()),
            },
    {
        if slice.len() != 20 && slice.len() != 32 {
            return Err(TypeError::SizeMismatch);
        }
        let mut data: Vec<u8> = Vec::new();
        extend(&mut data, slice);
        Ok(ZkLinkAddress { data })
    }

    /// Makes an address of the EVM from its 20 bytes.
    pub fn from_evm_bytes(bytes: &[u8; 20]) -> (address: ZkLinkAddress)
        ensures
            address@ == bytes@,
    {
        let mut data: Vec<u8> = Vec::new();
        extend(&mut data, bytes.as_slice());
        ZkLinkAddress { data }
    }

    /// The bytes of the address.
    pub fn as_bytes(&self) -> (bytes: &[u8])
        ensures
            bytes@ == self@,
            is_address_len(bytes@.len()),
    {
        proof {
            use_type_invariant(self);
        }
        self.data.as_slice()
    }

    /// The address as `0x` and lower-case hex digits.
    pub fn to_string(&self) -> (s: String)
        ensures
            s@ == prefixed_hex(self@),
    {
        to_prefixed_hex(self.data.as_slice())
    }

    /// Reads an address from `0x` and 40 or 64 hex digits.
    ///
    /// Fails with `ParseError` when the prefix is missing or the rest is not hex, and with
    /// `SizeMismatch` when the digits make neither 20 nor 32 bytes.
    pub fn from_str(s: &str) -> (r: Result<ZkLinkAddress, TypeError>)
        ensures
            match r {
                Ok(address) => parsed_prefixed_hex(s@) == Some(address@) && is_address_len(
                    address@.len(),
                ),
                Err(e) => match parsed_prefixed_hex(s@) {
                    Some(bytes) => e == TypeError::SizeMismatch && !is_address_len(bytes.len()),
                    None => e == TypeError::ParseError,
                },
            },
    {
        match parse_prefixed_hex(s) {
            Err(e) => Err(e),
            Ok(bytes) => ZkLinkAddress::from_slice(bytes.as_slice()),
        }
    }
}

} // verus!
