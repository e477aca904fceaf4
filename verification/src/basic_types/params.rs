//! The fixed numbers of the protocol.
use vstd::prelude::*;

verus! {

/// Bits of a price on the wire.
pub const PRICE_BIT_WIDTH: usize = 120;

/// Bits of the nonce of an order on the wire.
pub const ORDER_NONCE_BIT_WIDTH: usize = 24;

/// Bits of the canonical form of an order.
pub const SIGNED_ORDER_BIT_WIDTH: usize = 304;

/// Bits of the canonical form of an order matching.
pub const SIGNED_ORDER_MATCHING_BIT_WIDTH: usize = 592;

/// Bytes of the block of two orders that an order matching commits to.
pub const ORDERS_BYTES: usize = 178;

/// The largest account id.
pub const MAX_ACCOUNT_ID: u32 = 0xffff_ffff;

/// The largest sub-account id.
pub const MAX_SUB_ACCOUNT_ID: u8 = 0xff;

/// The largest slot id.
pub const MAX_SLOT_ID: u32 = 0xffff;

/// The largest token id.
pub const MAX_TOKEN_ID: u32 = 0xffff;

/// The largest nonce of an order.
pub const MAX_ORDER_NONCE: u32 = 0xff_ffff;

/// The largest price, `2^120 - 1`.
pub const MAX_PRICE: u128 = 0xff_ffff_ffff_ffff_ffff_ffff_ffff_ffff;

/// The largest amount that is sent unpacked, `2^128 - 1`.
pub const MAX_UNPACKABLE_AMOUNT: u128 = 0xffff_ffff_ffff_ffff_ffff_ffff_ffff_ffff;

} // verus!
