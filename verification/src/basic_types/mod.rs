//! The scalar identifiers of the protocol.
//!
//! Each is a number with a fixed width on the wire. Some are kept in a wider integer than
//! their field has room for; `new` refuses a number that would not fit the field.
pub mod bigint;
pub mod error;
pub mod h256;
pub mod hash_string;
pub mod hex_string;
pub mod params;
pub mod tx_hash;
pub mod zklink_address;

pub use num::BigUint;

use crate::basic_types::error::TypeError;
use crate::bytes::{be_bytes, lemma_pow256_values, pow_nat, to_be_bytes};
use vstd::prelude::*;

verus! {

/// The largest number that `width` bytes hold.
pub open spec fn max_of_width(width: nat) -> nat {
    (pow_nat(256, width) - 1) as nat
}

/// An account of the network. On the wire: 4 bytes, big-endian.
#[derive(Debug, Clone, Copy, PartialEq, Eq, Hash, PartialOrd, Ord, Default)]
pub struct AccountId(pub u32);

impl View for AccountId {
    type V = nat;

    open spec fn view(&self) -> nat {
        self.0 as nat
    }
}

impl AccountId {
    /// Bytes of the field on the wire.
    pub const BYTES: usize = 4;

    /// The largest number that the field holds.
    pub const MAX: u64 = 0xffff_ffff;

    /// Makes the identifier from a number; `RangeError` when the field has no room for it.
    pub fn new(value: u64) -> (r: Result<AccountId, TypeError>)
        ensures
            match r {
                Ok(id) => id@ == value && value <= max_of_width(4),
                Err(e) => e == TypeError::RangeError && value > max_of_width(4),
            },
    {
        proof {
            lemma_pow256_values();
        }
        if value > Self::MAX {
            Err(TypeError::RangeError)
        } else {
            Ok(AccountId(value as u32))
        }
    }

    /// Whether the number fits the field.
    pub fn is_valid(&self) -> (r: bool)
        ensures
            r == (self@ <= max_of_width(4)),
    {
        proof {
            lemma_pow256_values();
        }
        self.0 as u64 <= Self::MAX
    }

    /// The field on the wire: the 4 low-order bytes of the number, most significant first.
    pub fn to_be_bytes(&self) -> (bytes: Vec<u8>)
        ensures
            bytes@ == be_bytes(self@, 4),
    {
        to_be_bytes(self.0 as u128, Self::BYTES)
    }
}

/// A sub-account of an account. On the wire: 1 byte, big-endian.
#[derive(Debug, Clone, Copy, PartialEq, Eq, Hash, PartialOrd, Ord, Default)]
pub struct SubAccountId(pub u8);

impl View for SubAccountId {
    type V = nat;

    open spec fn view(&self) -> nat {
        self.0 as nat
    }
}

impl SubAccountId {
    /// Bytes of the field on the wire.
    pub const BYTES: usize = 1;

    /// The largest number that the field holds.
    pub const MAX: u64 = 0xff;

    /// Makes the identifier from a number; `RangeError` when the field has no room for it.
    pub fn new(value: u64) -> (r: Result<SubAccountId, TypeError>)
        ensures
            match r {
                Ok(id) => id@ == value && value <= max_of_width(1),
                Err(e) => e == TypeError::RangeError && value > max_of_width(1),
            },
    {
        proof {
            lemma_pow256_values();
        }
        if value > Self::MAX {
            Err(TypeError::RangeError)
        } else {
            Ok(SubAccountId(value as u8))
        }
    }

    /// Whether the number fits the field.
    pub fn is_valid(&self) -> (r: bool)
        ensures
            r == (self@ <= max_of_width(1)),
    {
        proof {
            lemma_pow256_values();
        }
        self.0 as u64 <= Self::MAX
    }

    /// The field on the wire: the 1 low-order bytes of the number, most significant first.
    pub fn to_be_bytes(&self) -> (bytes: Vec<u8>)
        ensures
            bytes@ == be_bytes(self@, 1),
    {
        to_be_bytes(self.0 as u128, Self::BYTES)
    }
}

/// A token. On the wire: 2 bytes, big-endian.
#[derive(Debug, Clone, Copy, PartialEq, Eq, Hash, PartialOrd, Ord, Default)]
pub struct TokenId(pub u32);

impl View for TokenId {
    type V = nat;

    open spec fn view(&self) -> nat {
        self.0 as nat
    }
}

impl TokenId {
    /// Bytes of the field on the wire.
    pub const BYTES: usize = 2;

    /// The largest number that the field holds.
    pub const MAX: u64 = 0xffff;

    /// Makes the identifier from a number; `RangeError` when the field has no room for it.
    pub fn new(value: u64) -> (r: Result<TokenId, TypeError>)
        ensures
            match r {
                Ok(id) => id@ == value && value <= max_of_width(2),
                Err(e) => e == TypeError::RangeError && value > max_of_width(2),
            },
    {
        proof {
            lemma_pow256_values();
        }
        if value > Self::MAX {
            Err(TypeError::RangeError)
        } else {
            Ok(TokenId(value as u32))
        }
    }

    /// Whether the number fits the field.
    pub fn is_valid(&self) -> (r: bool)
        ensures
            r == (self@ <= max_of_width(2)),
    {
        proof {
            lemma_pow256_values();
        }
        self.0 as u64 <= Self::MAX
    }

    /// The field on the wire: the 2 low-order bytes of the number, most significant first.
    pub fn to_be_bytes(&self) -> (bytes: Vec<u8>)
        ensures
            bytes@ == be_bytes(self@, 2),
    {
        to_be_bytes(self.0 as u128, Self::BYTES)
    }
}

/// An order slot of a sub-account. On the wire: 2 bytes, big-endian.
#[derive(Debug, Clone, Copy, PartialEq, Eq, Hash, PartialOrd, Ord, Default)]
pub struct SlotId(pub u32);

impl View for SlotId {
    type V = nat;

    open spec fn view(&self) -> nat {
        self.0 as nat
    }
}

impl SlotId {
    /// Bytes of the field on the wire.
    pub const BYTES: usize = 2;

    /// The largest number that the field holds.
    pub const MAX: u64 = 0xffff;

    /// Makes the identifier from a number; `RangeError` when the field has no room for it.
    pub fn new(value: u64) -> (r: Result<SlotId, TypeError>)
        ensures
            match r {
                Ok(id) => id@ == value && value <= max_of_width(2),
                Err(e) => e == TypeError::RangeError && value > max_of_width(2),
            },
    {
        proof {
            lemma_pow256_values();
        }
        if value > Self::MAX {
            Err(TypeError::RangeError)
        } else {
            Ok(SlotId(value as u32))
        }
    }

    /// Whether the number fits the field.
    pub fn is_valid(&self) -> (r: bool)
        ensures
            r == (self@ <= max_of_width(2)),
    {
        proof {
            lemma_pow256_values();
        }
        self.0 as u64 <= Self::MAX
    }

    /// The field on the wire: the 2 low-order bytes of the number, most significant first.
    pub fn to_be_bytes(&self) -> (bytes: Vec<u8>)
        ensures
            bytes@ == be_bytes(self@, 2),
    {
        to_be_bytes(self.0 as u128, Self::BYTES)
    }
}

/// A counter that orders the transactions of an account. On the wire: 4 bytes, big-endian.
#[derive(Debug, Clone, Copy, PartialEq, Eq, Hash, PartialOrd, Ord, Default)]
pub struct Nonce(pub u32);

impl View for Nonce {
    type V = nat;

    open spec fn view(&self) -> nat {
        self.0 as nat
    }
}

impl Nonce {
    /// Bytes of the field on the wire.
    pub const BYTES: usize = 4;

    /// The largest number that the field holds.
    pub const MAX: u64 = 0xffff_ffff;

    /// Makes the identifier from a number; `RangeError` when the field has no room for it.
    pub fn new(value: u64) -> (r: Result<Nonce, TypeError>)
        ensures
            match r {
                Ok(id) => id@ == value && value <= max_of_width(4),
                Err(e) => e == TypeError::RangeError && value > max_of_width(4),
            },
    {
        proof {
            lemma_pow256_values();
        }
        if value > Self::MAX {
            Err(TypeError::RangeError)
        } else {
            Ok(Nonce(value as u32))
        }
    }

    /// Whether the number fits the field.
    pub fn is_valid(&self) -> (r: bool)
        ensures
            r == (self@ <= max_of_width(4)),
    {
        proof {
            lemma_pow256_values();
        }
        self.0 as u64 <= Self::MAX
    }

    /// The field on the wire: the 4 low-order bytes of the number, most significant first.
    pub fn to_be_bytes(&self) -> (bytes: Vec<u8>)
        ensures
            bytes@ == be_bytes(self@, 4),
    {
        to_be_bytes(self.0 as u128, Self::BYTES)
    }
}

/// A layer-one chain. On the wire: 1 byte, big-endian.
#[derive(Debug, Clone, Copy, PartialEq, Eq, Hash, PartialOrd, Ord, Default)]
pub struct ChainId(pub u8);

impl View for ChainId {
    type V = nat;

    open spec fn view(&self) -> nat {
        self.0 as nat
    }
}

impl ChainId {
    /// Bytes of the field on the wire.
    pub const BYTES: usize = 1;

    /// The largest number that the field holds.
    pub const MAX: u64 = 0xff;

    /// Makes the identifier from a number; `RangeError` when the field has no room for it.
    pub fn new(value: u64) -> (r: Result<ChainId, TypeError>)
        ensures
            match r {
                Ok(id) => id@ == value && value <= max_of_width(1),
                Err(e) => e == TypeError::RangeError && value > max_of_width(1),
            },
    {
        proof {
            lemma_pow256_values();
        }
        if value > Self::MAX {
            Err(TypeError::RangeError)
        } else {
            Ok(ChainId(value as u8))
        }
    }

    /// Whether the number fits the field.
    pub fn is_valid(&self) -> (r: bool)
        ensures
            r == (self@ <= max_of_width(1)),
    {
        proof {
            lemma_pow256_values();
        }
        self.0 as u64 <= Self::MAX
    }

    /// The field on the wire: the 1 low-order bytes of the number, most significant first.
    pub fn to_be_bytes(&self) -> (bytes: Vec<u8>)
        ensures
            bytes@ == be_bytes(self@, 1),
    {
        to_be_bytes(self.0 as u128, Self::BYTES)
    }
}

/// A trading pair. On the wire: 2 bytes, big-endian.
#[derive(Debug, Clone, Copy, PartialEq, Eq, Hash, PartialOrd, Ord, Default)]
pub struct PairId(pub u16);

impl View for PairId {
    type V = nat;

    open spec fn view(&self) -> nat {
        self.0 as nat
    }
}

impl PairId {
    /// Bytes of the field on the wire.
    pub const BYTES: usize = 2;

    /// The largest number that the field holds.
    pub const MAX: u64 = 0xffff;

    /// Makes the identifier from a number; `RangeError` when the field has no room for it.
    pub fn new(value: u64) -> (r: Result<PairId, TypeError>)
        ensures
            match r {
                Ok(id) => id@ == value && value <= max_of_width(2),
                Err(e) => e == TypeError::RangeError && value > max_of_width(2),
            },
    {
        proof {
            lemma_pow256_values();
        }
        if value > Self::MAX {
            Err(TypeError::RangeError)
        } else {
            Ok(PairId(value as u16))
        }
    }

    /// Whether the number fits the field.
    pub fn is_valid(&self) -> (r: bool)
        ensures
            r == (self@ <= max_of_width(2)),
    {
        proof {
            lemma_pow256_values();
        }
        self.0 as u64 <= Self::MAX
    }

    /// The field on the wire: the 2 low-order bytes of the number, most significant first.
    pub fn to_be_bytes(&self) -> (bytes: Vec<u8>)
        ensures
            bytes@ == be_bytes(self@, 2),
    {
        to_be_bytes(self.0 as u128, Self::BYTES)
    }
}

/// A block of the network. On the wire: 4 bytes, big-endian.
#[derive(Debug, Clone, Copy, PartialEq, Eq, Hash, PartialOrd, Ord, Default)]
pub struct BlockNumber(pub u32);

impl View for BlockNumber {
    type V = nat;

    open spec fn view(&self) -> nat {
        self.0 as nat
    }
}

impl BlockNumber {
    /// Bytes of the field on the wire.
    pub const BYTES: usize = 4;

    /// The largest number that the field holds.
    pub const MAX: u64 = 0xffff_ffff;

    /// Makes the identifier from a number; `RangeError` when the field has no room for it.
    pub fn new(value: u64) -> (r: Result<BlockNumber, TypeError>)
        ensures
            match r {
                Ok(id) => id@ == value && value <= max_of_width(4),
                Err(e) => e == TypeError::RangeError && value > max_of_width(4),
            },
    {
        proof {
            lemma_pow256_values();
        }
        if value > Self::MAX {
            Err(TypeError::RangeError)
        } else {
            Ok(BlockNumber(value as u32))
        }
    }

    /// Whether the number fits the field.
    pub fn is_valid(&self) -> (r: bool)
        ensures
            r == (self@ <= max_of_width(4)),
    {
        proof {
            lemma_pow256_values();
        }
        self.0 as u64 <= Self::MAX
    }

    /// The field on the wire: the 4 low-order bytes of the number, most significant first.
    pub fn to_be_bytes(&self) -> (bytes: Vec<u8>)
        ensures
            bytes@ == be_bytes(self@, 4),
    {
        to_be_bytes(self.0 as u128, Self::BYTES)
    }
}

/// A priority operation of a layer-one chain. On the wire: 8 bytes, big-endian.
#[derive(Debug, Clone, Copy, PartialEq, Eq, Hash, PartialOrd, Ord, Default)]
pub struct PriorityOpId(pub u64);

impl View for PriorityOpId {
    type V = nat;

    open spec fn view(&self) -> nat {
        self.0 as nat
    }
}

impl PriorityOpId {
    /// Bytes of the field on the wire.
    pub const BYTES: usize = 8;

    /// The largest number that the field holds.
    pub const MAX: u64 = 0xffff_ffff_ffff_ffff;

    /// Makes the identifier from a number; `RangeError` when the field has no room for it.
    pub fn new(value: u64) -> (r: Result<PriorityOpId, TypeError>)
        ensures
            match r {
                Ok(id) => id@ == value && value <= max_of_width(8),
                Err(e) => e == TypeError::RangeError && value > max_of_width(8),
            },
    {
        proof {
            lemma_pow256_values();
        }
        if value > Self::MAX {
            Err(TypeError::RangeError)
        } else {
            Ok(PriorityOpId(value as u64))
        }
    }

    /// Whether the number fits the field.
    pub fn is_valid(&self) -> (r: bool)
        ensures
            r == (self@ <= max_of_width(8)),
    {
        proof {
            lemma_pow256_values();
        }
        self.0 as u64 <= Self::MAX
    }

    /// The field on the wire: the 8 low-order bytes of the number, most significant first.
    pub fn to_be_bytes(&self) -> (bytes: Vec<u8>)
        ensures
            bytes@ == be_bytes(self@, 8),
    {
        to_be_bytes(self.0 as u128, Self::BYTES)
    }
}

/// A block of a layer-one chain. On the wire: 8 bytes, big-endian.
#[derive(Debug, Clone, Copy, PartialEq, Eq, Hash, PartialOrd, Ord, Default)]
pub struct EthBlockId(pub u64);

impl View for EthBlockId {
    type V = nat;

    open spec fn view(&self) -> nat {
        self.0 as nat
    }
}

impl EthBlockId {
    /// Bytes of the field on the wire.
    pub const BYTES: usize = 8;

    /// The largest number that the field holds.
    pub const MAX: u64 = 0xffff_ffff_ffff_ffff;

    /// Makes the identifier from a number; `RangeError` when the field has no room for it.
    pub fn new(value: u64) -> (r: Result<EthBlockId, TypeError>)
        ensures
            match r {
                Ok(id) => id@ == value && value <= max_of_width(8),
                Err(e) => e == TypeError::RangeError && value > max_of_width(8),
            },
    {
        proof {
            lemma_pow256_values();
        }
        if value > Self::MAX {
            Err(TypeError::RangeError)
        } else {
            Ok(EthBlockId(value as u64))
        }
    }

    /// Whether the number fits the field.
    pub fn is_valid(&self) -> (r: bool)
        ensures
            r == (self@ <= max_of_width(8)),
    {
        proof {
            lemma_pow256_values();
        }
        self.0 as u64 <= Self::MAX
    }

    /// The field on the wire: the 8 low-order bytes of the number, most significant first.
    pub fn to_be_bytes(&self) -> (bytes: Vec<u8>)
        ensures
            bytes@ == be_bytes(self@, 8),
    {
        to_be_bytes(self.0 as u128, Self::BYTES)
    }
}

/// A time, in seconds. On the wire: 4 bytes, big-endian.
#[derive(Debug, Clone, Copy, PartialEq, Eq, Hash, PartialOrd, Ord, Default)]
pub struct TimeStamp(pub u32);

impl View for TimeStamp {
    type V = nat;

    open spec fn view(&self) -> nat {
        self.0 as nat
    }
}

impl TimeStamp {
    /// Bytes of the field on the wire.
    pub const BYTES: usize = 4;

    /// The largest number that the field holds.
    pub const MAX: u64 = 0xffff_ffff;

    /// Makes the identifier from a number; `RangeError` when the field has no room for it.
    pub fn new(value: u64) -> (r: Result<TimeStamp, TypeError>)
        ensures
            match r {
                Ok(id) => id@ == value && value <= max_of_width(4),
                Err(e) => e == TypeError::RangeError && value > max_of_width(4),
            },
    {
        proof {
            lemma_pow256_values();
        }
        if value > Self::MAX {
            Err(TypeError::RangeError)
        } else {
            Ok(TimeStamp(value as u32))
        }
    }

    /// Whether the number fits the field.
    pub fn is_valid(&self) -> (r: bool)
        ensures
            r == (self@ <= max_of_width(4)),
    {
        proof {
            lemma_pow256_values();
        }
        self.0 as u64 <= Self::MAX
    }

    /// The field on the wire: the 4 low-order bytes of the number, most significant first.
    pub fn to_be_bytes(&self) -> (bytes: Vec<u8>)
        ensures
            bytes@ == be_bytes(self@, 4),
    {
        to_be_bytes(self.0 as u128, Self::BYTES)
    }
}

} // verus!
