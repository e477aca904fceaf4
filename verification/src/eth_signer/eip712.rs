//! Typed structured data, as Ethereum wallets sign it.
//!
//! What is signed is a digest of two hashes: that of the domain, which names the protocol,
//! the chain and the contract, and that of the message. Every member is one 32-byte word.
use crate::basic_types::h256::H256;
use crate::bytes::{be_bytes, extend, pad_front, padded_front, to_be_bytes, zero_bytes};
use crate::crypto::digest::{keccak256, keccak256_digest};
use vstd::prelude::*;
use vstd::string::*;

verus! {

/// Typed data that is ready to be signed.
#[derive(Debug, Clone, Copy, PartialEq, Eq)]
pub struct EIP712TypedData {
    /// The hash of the domain.
    pub domain_separator: H256,
    /// The hash of the message.
    pub message_hash: H256,
    /// The digest that is signed.
    pub data_hash: H256,
}

/// A number as a 32-byte word.
pub open spec fn uint_word(value: nat) -> Seq<u8> {
    be_bytes(value, 32)
}

/// An address of 20 bytes as a 32-byte word: zeros in front.
pub open spec fn address_word(address: Seq<u8>) -> Seq<u8> {
    padded_front(address, 32)
}

/// A fixed byte string of at most 32 bytes as a 32-byte word: zeros behind.
pub open spec fn bytes_word(bytes: Seq<u8>) -> Seq<u8> {
    bytes + zero_bytes((32 - bytes.len()) as nat)
}

/// The hash of the domain of this protocol on chain `chain_id`, with its contract at
/// `contract`.
pub open spec fn domain_separator(chain_id: nat, contract: Seq<u8>) -> Seq<u8> {
    keccak256(
        keccak256(
            "EIP712Domain(string name,string version,uint256 chainId,address verifyingContract)".spec_bytes(),
        ) + keccak256("ZkLink".spec_bytes()) + keccak256("1".spec_bytes()) + uint_word(chain_id)
            + address_word(contract),
    )
}

/// The digest that is signed for a message with hash `message_hash` in a domain with hash
/// `domain`.
pub open spec fn typed_data_digest(domain: Seq<u8>, message_hash: Seq<u8>) -> Seq<u8> {
    keccak256(seq![0x19u8, 0x01u8] + domain + message_hash)
}

/// The hash of the domain of this protocol. `contract` is an address of 20 bytes.
pub fn hash_domain(chain_id: u32, contract: &[u8]) -> (hash: H256)
    requires
        contract@.len() == 20,
    ensures
        hash@ == domain_separator(chain_id as nat, contract@),
{
    let mut preimage: Vec<u8> = Vec::new();
    extend(
        &mut preimage,
        keccak256_digest(
            "EIP712Domain(string name,string version,uint256 chainId,address verifyingContract)".as_bytes(),
        ).as_slice(),
    );
    extend(&mut preimage, keccak256_digest("ZkLink".as_bytes()).as_slice());
    extend(&mut preimage, keccak256_digest("1".as_bytes()).as_slice());
    extend(&mut preimage, to_be_bytes(chain_id as u128, 32).as_slice());
    extend(&mut preimage, pad_front(contract, 32).as_slice());
    H256 { data: keccak256_digest(preimage.as_slice()) }
}

/// The digest that is signed, from the two hashes.
pub fn hash_typed_data(domain: &H256, message_hash: &H256) -> (digest: H256)
    ensures
        digest@ == typed_data_digest(domain@, message_hash@),
{
    let mut preimage: Vec<u8> = Vec::new();
    preimage.push(0x19);
    preimage.push(0x01);
    extend(&mut preimage, domain.data.as_slice());
    extend(&mut preimage, message_hash.data.as_slice());
    assert(preimage@ =~= seq![0x19u8, 0x01u8] + domain@ + message_hash@);
    H256 { data: keccak256_digest(preimage.as_slice()) }
}

} // verus!
