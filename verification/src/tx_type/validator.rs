//! The checks that a transaction's fields must pass before it is signed.
use crate::basic_types::bigint::{biguint_from_u128, biguint_le, biguint_value};
use crate::basic_types::params::{
    MAX_ACCOUNT_ID, MAX_ORDER_NONCE, MAX_PRICE, MAX_SLOT_ID, MAX_SUB_ACCOUNT_ID, MAX_TOKEN_ID,
    MAX_UNPACKABLE_AMOUNT,
};
use crate::basic_types::{AccountId, Nonce, SlotId, SubAccountId, TokenId};
use crate::tx_type::pack::{
    fee_amount_packable, is_fee_amount_packable, is_token_amount_packable, token_amount_packable,
};
use num::BigUint;
use vstd::prelude::*;

verus! {

/// Which field of a transaction a check is about.
#[derive(Debug, Clone, Copy, PartialEq, Eq)]
pub enum Field {
    AccountId,
    SubAccountId,
    SlotId,
    Nonce,
    BaseTokenId,
    QuoteTokenId,
    Amount,
    Price,
    IsSell,
    Taker,
    Maker,
    Fee,
    FeeToken,
    ExpectBaseAmount,
    ExpectQuoteAmount,
}

/// What is wrong with a field.
#[derive(Debug, Clone, Copy, PartialEq, Eq)]
pub enum Reason {
    /// The number is outside the range of its field.
    RangeError,
    /// The amount would not come back from packing unchanged.
    UnpackableAmount,
}

/// The first check that a transaction fails.
#[derive(Debug, Clone, Copy, PartialEq, Eq)]
pub struct ValidationError {
    pub field: Field,
    pub reason: Reason,
}

/// The result of a check that `ok` says is passed, and that fails for `reason` otherwise.
pub open spec fn checked(ok: bool, reason: Reason) -> Result<(), Reason> {
    if ok {
        Ok(())
    } else {
        Err(reason)
    }
}

/// An account id is within range.
pub fn account_validator(account_id: &AccountId) -> (r: Result<(), Reason>)
    ensures
        r == checked(account_id@ <= MAX_ACCOUNT_ID, Reason::RangeError),
{
    if account_id.0 > MAX_ACCOUNT_ID {
        Err(Reason::RangeError)
    } else {
        Ok(())
    }
}

/// A sub-account id is within range.
pub fn sub_account_validator(sub_account_id: &SubAccountId) -> (r: Result<(), Reason>)
    ensures
        r == checked(sub_account_id@ <= MAX_SUB_ACCOUNT_ID, Reason::RangeError),
{
    if sub_account_id.0 > MAX_SUB_ACCOUNT_ID {
        Err(Reason::RangeError)
    } else {
        Ok(())
    }
}

/// A slot id is within range.
pub fn slot_id_validator(slot_id: &SlotId) -> (r: Result<(), Reason>)
    ensures
        r == checked(slot_id@ <= MAX_SLOT_ID, Reason::RangeError),
{
    if slot_id.0 > MAX_SLOT_ID {
        Err(Reason::RangeError)
    } else {
        Ok(())
    }
}

/// The nonce of an order is within range.
pub fn nonce_validator(nonce: &Nonce) -> (r: Result<(), Reason>)
    ensures
        r == checked(nonce@ <= MAX_ORDER_NONCE, Reason::RangeError),
{
    if nonce.0 > MAX_ORDER_NONCE {
        Err(Reason::RangeError)
    } else {
        Ok(())
    }
}

/// A token id is within range.
pub fn token_validator(token_id: &TokenId) -> (r: Result<(), Reason>)
    ensures
        r == checked(token_id@ <= MAX_TOKEN_ID, Reason::RangeError),
{
    if token_id.0 > MAX_TOKEN_ID {
        Err(Reason::RangeError)
    } else {
        Ok(())
    }
}

/// A flag is 0 or 1.
pub fn boolean_validator(flag: u8) -> (r: Result<(), Reason>)
    ensures
        r == checked(flag <= 1, Reason::RangeError),
{
    if flag > 1 {
        Err(Reason::RangeError)
    } else {
        Ok(())
    }
}

/// A price fits its 120 bits.
pub fn price_validator(price: &BigUint) -> (r: Result<(), Reason>)
    ensures
        r == checked(biguint_value(*price) <= MAX_PRICE, Reason::RangeError),
{
    let max = biguint_from_u128(MAX_PRICE);
    if biguint_le(price, &max) {
        Ok(())
    } else {
        Err(Reason::RangeError)
    }
}

/// A token amount comes back from packing unchanged.
pub fn amount_packable(amount: &BigUint) -> (r: Result<(), Reason>)
    ensures
        r == checked(token_amount_packable(biguint_value(*amount)), Reason::UnpackableAmount),
{
    if is_token_amount_packable(amount) {
        Ok(())
    } else {
        Err(Reason::UnpackableAmount)
    }
}

/// A fee comes back from packing unchanged.
pub fn fee_packable(fee: &BigUint) -> (r: Result<(), Reason>)
    ensures
        r == checked(fee_amount_packable(biguint_value(*fee)), Reason::UnpackableAmount),
{
    if is_fee_amount_packable(fee) {
        Ok(())
    } else {
        Err(Reason::UnpackableAmount)
    }
}

/// An amount that is sent unpacked fits its 128 bits.
pub fn amount_unpackable(amount: &BigUint) -> (r: Result<(), Reason>)
    ensures
        r == checked(biguint_value(*amount) <= MAX_UNPACKABLE_AMOUNT, Reason::RangeError),
{
    let max = biguint_from_u128(MAX_UNPACKABLE_AMOUNT);
    if biguint_le(amount, &max) {
        Ok(())
    } else {
        Err(Reason::RangeError)
    }
}

} // verus!
