//! Orders and the transaction that matches two of them.
use crate::basic_types::bigint::{
    biguint_from_u128, biguint_is_zero, biguint_le, biguint_to_bytes_be, biguint_to_string,
    biguint_to_u128, biguint_value, decimal_string,
};
use crate::basic_types::params::{
    MAX_ACCOUNT_ID, MAX_ORDER_NONCE, MAX_PRICE, MAX_SLOT_ID, MAX_SUB_ACCOUNT_ID, MAX_TOKEN_ID,
    MAX_UNPACKABLE_AMOUNT, ORDERS_BYTES, PRICE_BIT_WIDTH, SIGNED_ORDER_BIT_WIDTH,
    SIGNED_ORDER_MATCHING_BIT_WIDTH,
};
use crate::basic_types::tx_hash::TxHash;
use crate::basic_types::{AccountId, Nonce, SlotId, SubAccountId, TokenId};
use crate::crypto::digest::sha256;
use crate::bytes::{
    be_bytes, be_value, extend, lemma_be_bytes_injective, lemma_be_bytes_len,
    lemma_be_value_lower_bound, lemma_concat_parts, lemma_padded_front_is_be_bytes,
    lemma_pow256_values, lemma_pow_nat_adds, lemma_pow_nat_monotone, pad_front, pow_nat,
    resized, to_be_bytes, zero_bytes,
};
use crate::crypto::error::ZkSignerError;
use crate::crypto::pk_signer::ZkLinkSigner;
use crate::crypto::primitives::CryptoParams;
use crate::crypto::signature::ZkLinkSignature;
use crate::crypto::{orders_digest, rescue_hash_orders, signature_of, verification};
use crate::tx_type::pack::{
    fee_amount_packable, fee_amount_packed, largest_fee_amount, largest_token_amount,
    max_fee_amount, max_token_amount, pack_fee_amount, pack_token_amount, packed_word,
    token_amount_packable, token_amount_packed, AMOUNT_EXPONENT_BIT_WIDTH,
    AMOUNT_MANTISSA_BIT_WIDTH,
};
use crate::tx_type::validator::{
    account_validator, amount_packable, amount_unpackable, boolean_validator, fee_packable,
    nonce_validator, price_validator, slot_id_validator, sub_account_validator,
    token_validator, Field, Reason, ValidationError,
};
use crate::tx_type::{format_units, units_string};
use num::BigUint;
use vstd::prelude::*;
use vstd::string::*;

verus! {

/// An offer to buy or sell an amount of the base token at a price in the quote token.
#[derive(Default, Debug, Clone)]
pub struct Order {
    pub account_id: AccountId,
    pub sub_account_id: SubAccountId,
    pub slot_id: SlotId,
    pub nonce: Nonce,
    pub base_token_id: TokenId,
    pub quote_token_id: TokenId,
    /// The amount of base token to buy or sell.
    pub amount: BigUint,
    /// How much quote token one base token costs.
    pub price: BigUint,
    /// 0 to buy, 1 to sell.
    pub is_sell: u8,
    /// The fee as maker, in parts of ten thousand.
    pub fee_ratio1: u8,
    /// The fee as taker, in parts of ten thousand.
    pub fee_ratio2: u8,
    pub signature: ZkLinkSignature,
}

/// What an order holds, as numbers.
pub struct OrderView {
    pub account_id: nat,
    pub sub_account_id: nat,
    pub slot_id: nat,
    pub nonce: nat,
    pub base_token_id: nat,
    pub quote_token_id: nat,
    pub amount: nat,
    pub price: nat,
    pub is_sell: nat,
    pub fee_ratio1: nat,
    pub fee_ratio2: nat,
    pub signature: Seq<u8>,
}

impl View for Order {
    type V = OrderView;

    open spec fn view(&self) -> OrderView {
        OrderView {
            account_id: self.account_id@,
            sub_account_id: self.sub_account_id@,
            slot_id: self.slot_id@,
            nonce: self.nonce@,
            base_token_id: self.base_token_id@,
            quote_token_id: self.quote_token_id@,
            amount: biguint_value(self.amount),
            price: biguint_value(self.price),
            is_sell: self.is_sell as nat,
            fee_ratio1: self.fee_ratio1 as nat,
            fee_ratio2: self.fee_ratio2 as nat,
            signature: self.signature@,
        }
    }
}

impl OrderView {
    /// The order can be written: its price fits 15 bytes and its amount is within the range
    /// of a packed token amount.
    pub open spec fn encodable(self) -> bool {
        self.price <= MAX_PRICE && self.amount <= max_token_amount()
    }

    /// The canonical form of the order, 38 bytes: the tag `0xff`, account (4), sub-account (1),
    /// slot (2), nonce (3), base token (2), quote token (2), price (15), side (1), the two fee
    /// ratios (1 each) and the packed amount (5). A number wider than its field is cut to the
    /// field's low-order bytes.
    pub open spec fn bytes(self) -> Seq<u8> {
        seq![0xffu8] + be_bytes(self.account_id, 4) + be_bytes(self.sub_account_id, 1) + be_bytes(
            self.slot_id,
            2,
        ) + be_bytes(self.nonce, 3) + be_bytes(self.base_token_id, 2) + be_bytes(
            self.quote_token_id,
            2,
        ) + be_bytes(self.price, 15) + be_bytes(self.is_sell, 1) + be_bytes(self.fee_ratio1, 1)
            + be_bytes(self.fee_ratio2, 1) + token_amount_packed(self.amount)
    }

    /// The first field that fails its check, in the order of the fields, or `None` when all
    /// pass.
    pub open spec fn violation(self) -> Option<ValidationError> {
        if self.account_id > MAX_ACCOUNT_ID {
            Some(ValidationError { field: Field::AccountId, reason: Reason::RangeError })
        } else if self.sub_account_id > MAX_SUB_ACCOUNT_ID {
            Some(ValidationError { field: Field::SubAccountId, reason: Reason::RangeError })
        } else if self.slot_id > MAX_SLOT_ID {
            Some(ValidationError { field: Field::SlotId, reason: Reason::RangeError })
        } else if self.nonce > MAX_ORDER_NONCE {
            Some(ValidationError { field: Field::Nonce, reason: Reason::RangeError })
        } else if self.base_token_id > MAX_TOKEN_ID {
            Some(ValidationError { field: Field::BaseTokenId, reason: Reason::RangeError })
        } else if self.quote_token_id > MAX_TOKEN_ID {
            Some(ValidationError { field: Field::QuoteTokenId, reason: Reason::RangeError })
        } else if !token_amount_packable(self.amount) {
            Some(ValidationError { field: Field::Amount, reason: Reason::UnpackableAmount })
        } else if self.price > MAX_PRICE {
            Some(ValidationError { field: Field::Price, reason: Reason::RangeError })
        } else if self.is_sell > 1 {
            Some(ValidationError { field: Field::IsSell, reason: Reason::RangeError })
        } else {
            None
        }
    }

    /// Every field passes its check.
    pub open spec fn valid(self) -> bool {
        self.violation() is None
    }

    /// The message that the owner of the order signs with an Ethereum key.
    pub open spec fn ethereum_sign_message(
        self,
        quote_token: Seq<char>,
        based_token: Seq<char>,
        decimals: nat,
    ) -> Seq<char> {
        let head = if self.amount == 0 {
            "Limit order for "@ + quote_token + " -> "@ + based_token + "\n"@
        } else {
            "Order for "@ + units_string(self.amount, decimals) + " "@ + quote_token + " -> "@
                + based_token + "\n"@
        };
        head + "price: "@ + decimal_string(self.price) + "\nNonce: "@ + decimal_string(self.nonce)
    }
}

/// The canonical form of an order has 38 bytes and begins with the tag `0xff`.
pub proof fn law_order_bytes_shape(order: OrderView)
    ensures
        order.bytes().len() == 38,
        order.bytes()[0] == 0xffu8,
{
    lemma_be_bytes_len(order.account_id, 4);
    lemma_be_bytes_len(order.sub_account_id, 1);
    lemma_be_bytes_len(order.slot_id, 2);
    lemma_be_bytes_len(order.nonce, 3);
    lemma_be_bytes_len(order.base_token_id, 2);
    lemma_be_bytes_len(order.quote_token_id, 2);
    lemma_be_bytes_len(order.price, 15);
    lemma_be_bytes_len(order.is_sell, 1);
    lemma_be_bytes_len(order.fee_ratio1, 1);
    lemma_be_bytes_len(order.fee_ratio2, 1);
    lemma_be_bytes_len(
        packed_word(
            order.amount,
            AMOUNT_EXPONENT_BIT_WIDTH as nat,
            AMOUNT_MANTISSA_BIT_WIDTH as nat,
        ),
        5,
    );
}

/// A valid order can be written.
pub proof fn law_valid_order_is_encodable(order: OrderView)
    requires
        order.valid(),
    ensures
        order.encodable(),
{
}

/// The canonical form tells valid orders apart: two valid orders with the same bytes hold
/// the same fields. Only their signatures, which are not part of the form, may differ.
pub proof fn law_order_bytes_tell_orders_apart(a: Order, b: Order)
    requires
        a@.valid(),
        b@.valid(),
        a@.bytes() == b@.bytes(),
    ensures
        a@ == (OrderView { signature: a@.signature, ..b@ }),
{
    let (x, y) = (a@, b@);
    let amount_a = token_amount_packed(x.amount);
    let amount_b = token_amount_packed(y.amount);
    lemma_be_bytes_len(x.account_id, 4);
    lemma_be_bytes_len(y.account_id, 4);
    lemma_be_bytes_len(x.sub_account_id, 1);
    lemma_be_bytes_len(y.sub_account_id, 1);
    lemma_be_bytes_len(x.slot_id, 2);
    lemma_be_bytes_len(y.slot_id, 2);
    lemma_be_bytes_len(x.nonce, 3);
    lemma_be_bytes_len(y.nonce, 3);
    lemma_be_bytes_len(x.base_token_id, 2);
    lemma_be_bytes_len(y.base_token_id, 2);
    lemma_be_bytes_len(x.quote_token_id, 2);
    lemma_be_bytes_len(y.quote_token_id, 2);
    lemma_be_bytes_len(x.price, 15);
    lemma_be_bytes_len(y.price, 15);
    lemma_be_bytes_len(x.is_sell, 1);
    lemma_be_bytes_len(y.is_sell, 1);
    lemma_be_bytes_len(x.fee_ratio1, 1);
    lemma_be_bytes_len(y.fee_ratio1, 1);
    lemma_be_bytes_len(x.fee_ratio2, 1);
    lemma_be_bytes_len(y.fee_ratio2, 1);
    law_order_bytes_shape(x);
    law_order_bytes_shape(y);
    // Take the two forms apart from the end, field by field.
    let a10 = seq![0xffu8] + be_bytes(x.account_id, 4) + be_bytes(x.sub_account_id, 1) + be_bytes(
        x.slot_id,
        2,
    ) + be_bytes(x.nonce, 3) + be_bytes(x.base_token_id, 2) + be_bytes(x.quote_token_id, 2)
        + be_bytes(x.price, 15) + be_bytes(x.is_sell, 1) + be_bytes(x.fee_ratio1, 1) + be_bytes(
        x.fee_ratio2,
        1,
    );
    let b10 = seq![0xffu8] + be_bytes(y.account_id, 4) + be_bytes(y.sub_account_id, 1) + be_bytes(
        y.slot_id,
        2,
    ) + be_bytes(y.nonce, 3) + be_bytes(y.base_token_id, 2) + be_bytes(y.quote_token_id, 2)
        + be_bytes(y.price, 15) + be_bytes(y.is_sell, 1) + be_bytes(y.fee_ratio1, 1) + be_bytes(
        y.fee_ratio2,
        1,
    );
    assert(amount_a.len() == 5 && amount_b.len() == 5);
    lemma_concat_parts(a10, amount_a, b10, amount_b);
    let a9 = seq![0xffu8] + be_bytes(x.account_id, 4) + be_bytes(x.sub_account_id, 1) + be_bytes(
        x.slot_id,
        2,
    ) + be_bytes(x.nonce, 3) + be_bytes(x.base_token_id, 2) + be_bytes(x.quote_token_id, 2)
        + be_bytes(x.price, 15) + be_bytes(x.is_sell, 1) + be_bytes(x.fee_ratio1, 1);
    let b9 = seq![0xffu8] + be_bytes(y.account_id, 4) + be_bytes(y.sub_account_id, 1) + be_bytes(
        y.slot_id,
        2,
    ) + be_bytes(y.nonce, 3) + be_bytes(y.base_token_id, 2) + be_bytes(y.quote_token_id, 2)
        + be_bytes(y.price, 15) + be_bytes(y.is_sell, 1) + be_bytes(y.fee_ratio1, 1);
    lemma_concat_parts(a9, be_bytes(x.fee_ratio2, 1), b9, be_bytes(y.fee_ratio2, 1));
    let a8 = seq![0xffu8] + be_bytes(x.account_id, 4) + be_bytes(x.sub_account_id, 1) + be_bytes(
        x.slot_id,
        2,
    ) + be_bytes(x.nonce, 3) + be_bytes(x.base_token_id, 2) + be_bytes(x.quote_token_id, 2)
        + be_bytes(x.price, 15) + be_bytes(x.is_sell, 1);
    let b8 = seq![0xffu8] + be_bytes(y.account_id, 4) + be_bytes(y.sub_account_id, 1) + be_bytes(
        y.slot_id,
        2,
    ) + be_bytes(y.nonce, 3) + be_bytes(y.base_token_id, 2) + be_bytes(y.quote_token_id, 2)
        + be_bytes(y.price, 15) + be_bytes(y.is_sell, 1);
    lemma_concat_parts(a8, be_bytes(x.fee_ratio1, 1), b8, be_bytes(y.fee_ratio1, 1));
    let a7 = seq![0xffu8] + be_bytes(x.account_id, 4) + be_bytes(x.sub_account_id, 1) + be_bytes(
        x.slot_id,
        2,
    ) + be_bytes(x.nonce, 3) + be_bytes(x.base_token_id, 2) + be_bytes(x.quote_token_id, 2)
        + be_bytes(x.price, 15);
    let b7 = seq![0xffu8] + be_bytes(y.account_id, 4) + be_bytes(y.sub_account_id, 1) + be_bytes(
        y.slot_id,
        2,
    ) + be_bytes(y.nonce, 3) + be_bytes(y.base_token_id, 2) + be_bytes(y.quote_token_id, 2)
        + be_bytes(y.price, 15);
    lemma_concat_parts(a7, be_bytes(x.is_sell, 1), b7, be_bytes(y.is_sell, 1));
    let a6 = seq![0xffu8] + be_bytes(x.account_id, 4) + be_bytes(x.sub_account_id, 1) + be_bytes(
        x.slot_id,
        2,
    ) + be_bytes(x.nonce, 3) + be_bytes(x.base_token_id, 2) + be_bytes(x.quote_token_id, 2);
    let b6 = seq![0xffu8] + be_bytes(y.account_id, 4) + be_bytes(y.sub_account_id, 1) + be_bytes(
        y.slot_id,
        2,
    ) + be_bytes(y.nonce, 3) + be_bytes(y.base_token_id, 2) + be_bytes(y.quote_token_id, 2);
    lemma_concat_parts(a6, be_bytes(x.price, 15), b6, be_bytes(y.price, 15));
    let a5 = seq![0xffu8] + be_bytes(x.account_id, 4) + be_bytes(x.sub_account_id, 1) + be_bytes(
        x.slot_id,
        2,
    ) + be_bytes(x.nonce, 3) + be_bytes(x.base_token_id, 2);
    let b5 = seq![0xffu8] + be_bytes(y.account_id, 4) + be_bytes(y.sub_account_id, 1) + be_bytes(
        y.slot_id,
        2,
    ) + be_bytes(y.nonce, 3) + be_bytes(y.base_token_id, 2);
    lemma_concat_parts(a5, be_bytes(x.quote_token_id, 2), b5, be_bytes(y.quote_token_id, 2));
    let a4 = seq![0xffu8] + be_bytes(x.account_id, 4) + be_bytes(x.sub_account_id, 1) + be_bytes(
        x.slot_id,
        2,
    ) + be_bytes(x.nonce, 3);
    let b4 = seq![0xffu8] + be_bytes(y.account_id, 4) + be_bytes(y.sub_account_id, 1) + be_bytes(
        y.slot_id,
        2,
    ) + be_bytes(y.nonce, 3);
    lemma_concat_parts(a4, be_bytes(x.base_token_id, 2), b4, be_bytes(y.base_token_id, 2));
    let a3 = seq![0xffu8] + be_bytes(x.account_id, 4) + be_bytes(x.sub_account_id, 1) + be_bytes(
        x.slot_id,
        2,
    );
    let b3 = seq![0xffu8] + be_bytes(y.account_id, 4) + be_bytes(y.sub_account_id, 1) + be_bytes(
        y.slot_id,
        2,
    );
    lemma_concat_parts(a3, be_bytes(x.nonce, 3), b3, be_bytes(y.nonce, 3));
    let a2 = seq![0xffu8] + be_bytes(x.account_id, 4) + be_bytes(x.sub_account_id, 1);
    let b2 = seq![0xffu8] + be_bytes(y.account_id, 4) + be_bytes(y.sub_account_id, 1);
    lemma_concat_parts(a2, be_bytes(x.slot_id, 2), b2, be_bytes(y.slot_id, 2));
    let a1 = seq![0xffu8] + be_bytes(x.account_id, 4);
    let b1 = seq![0xffu8] + be_bytes(y.account_id, 4);
    lemma_concat_parts(a1, be_bytes(x.sub_account_id, 1), b1, be_bytes(y.sub_account_id, 1));
    lemma_concat_parts(
        seq![0xffu8],
        be_bytes(x.account_id, 4),
        seq![0xffu8],
        be_bytes(y.account_id, 4),
    );
    // Equal fields on the wire are equal numbers, since each fits its field.
    lemma_pow256_values();
    lemma_pow_nat_adds(256, 2, 1);
    assert(pow_nat(256, 3) == 0x100_0000);
    lemma_be_bytes_injective(x.account_id, y.account_id, 4);
    lemma_be_bytes_injective(x.sub_account_id, y.sub_account_id, 1);
    lemma_be_bytes_injective(x.slot_id, y.slot_id, 2);
    lemma_be_bytes_injective(x.nonce, y.nonce, 3);
    lemma_be_bytes_injective(x.base_token_id, y.base_token_id, 2);
    lemma_be_bytes_injective(x.quote_token_id, y.quote_token_id, 2);
    lemma_be_bytes_injective(x.price, y.price, 15);
    lemma_be_bytes_injective(x.is_sell, y.is_sell, 1);
    lemma_be_bytes_injective(x.fee_ratio1, y.fee_ratio1, 1);
    lemma_be_bytes_injective(x.fee_ratio2, y.fee_ratio2, 1);
    // Equal packed amounts are equal amounts, since both come back from packing unchanged.
    assert(x.amount == y.amount);
}

/// The big-endian bytes of a number below `256^size`, padded in front, are its `size`-byte
/// form.
proof fn lemma_minimal_bytes_fit(bytes: Seq<u8>, size: nat)
    requires
        bytes.len() >= 1,
        bytes.len() > 1 ==> bytes[0] != 0u8,
        be_value(bytes) < pow_nat(256, size),
        size >= 1,
    ensures
        bytes.len() <= size,
{
    if bytes.len() > size {
        lemma_be_value_lower_bound(bytes);
        lemma_pow_nat_monotone(256, size, (bytes.len() - 1) as nat);
    }
}

impl Order {
    /// The tag that begins the canonical form of an order.
    pub const MSG_TYPE: u8 = 0xff;

    /// Makes an order that is not signed yet: its signature is the empty one.
    pub fn new(
        account_id: AccountId,
        sub_account_id: SubAccountId,
        slot_id: SlotId,
        nonce: Nonce,
        base_token_id: TokenId,
        quote_token_id: TokenId,
        amount: BigUint,
        price: BigUint,
        is_sell: bool,
        fee_ratio1: u8,
        fee_ratio2: u8,
    ) -> (order: Order)
        ensures
            order@ == (OrderView {
                account_id: account_id@,
                sub_account_id: sub_account_id@,
                slot_id: slot_id@,
                nonce: nonce@,
                base_token_id: base_token_id@,
                quote_token_id: quote_token_id@,
                amount: biguint_value(amount),
                price: biguint_value(price),
                is_sell: if is_sell {
                    1nat
                } else {
                    0nat
                },
                fee_ratio1: fee_ratio1 as nat,
                fee_ratio2: fee_ratio2 as nat,
                signature: zero_bytes(96),
            }),
    {
        Order {
            account_id,
            sub_account_id,
            slot_id,
            nonce,
            base_token_id,
            quote_token_id,
            amount,
            price,
            is_sell: if is_sell {
                1
            } else {
                0
            },
            fee_ratio1,
            fee_ratio2,
            signature: ZkLinkSignature::default(),
        }
    }

    /// Whether the order can be written: `get_bytes`, `sign` and `is_signature_valid` ask for
    /// this. Every valid order can.
    pub fn is_encodable(&self) -> (r: bool)
        ensures
            r == self@.encodable(),
    {
        let fits = price_validator(&self.price).is_ok();
        let largest = largest_token_amount();
        fits && biguint_le(&self.amount, &largest)
    }

    /// Encodes the order in its canonical form.
    pub fn get_bytes(&self) -> (bytes: Vec<u8>)
        requires
            self@.encodable(),
        ensures
            bytes@ == self@.bytes(),
            bytes@.len() == 38,
    {
        let mut out: Vec<u8> = Vec::with_capacity(SIGNED_ORDER_BIT_WIDTH / 8);
        out.push(Self::MSG_TYPE);
        extend(&mut out, self.account_id.to_be_bytes().as_slice());
        extend(&mut out, self.sub_account_id.to_be_bytes().as_slice());
        extend(&mut out, self.slot_id.to_be_bytes().as_slice());
        extend(&mut out, to_be_bytes(self.nonce.0 as u128, ORDER_NONCE_BYTES).as_slice());
        extend(&mut out, self.base_token_id.to_be_bytes().as_slice());
        extend(&mut out, self.quote_token_id.to_be_bytes().as_slice());
        let price = biguint_to_bytes_be(&self.price);
        proof {
            lemma_pow256_values();
            lemma_minimal_bytes_fit(price@, 15);
            lemma_padded_front_is_be_bytes(price@, 15);
        }
        extend(&mut out, pad_front(price.as_slice(), PRICE_BIT_WIDTH / 8).as_slice());
        extend(&mut out, to_be_bytes(self.is_sell as u128, 1).as_slice());
        extend(&mut out, to_be_bytes(self.fee_ratio1 as u128, 1).as_slice());
        extend(&mut out, to_be_bytes(self.fee_ratio2 as u128, 1).as_slice());
        extend(&mut out, pack_token_amount(&self.amount).as_slice());
        proof {
            assert(out@ =~= self@.bytes());
            law_order_bytes_shape(self@);
        }
        out
    }

    /// The message that the owner of the order signs with an Ethereum key: what is ordered,
    /// at what price, under which nonce.
    pub fn get_ethereum_sign_message(&self, quote_token: &str, based_token: &str, decimals: u8) -> (message: String)
        ensures
            message@ == self@.ethereum_sign_message(quote_token@, based_token@, decimals as nat),
    {
        let mut message = if biguint_is_zero(&self.amount) {
            let mut head = String::from_str("Limit order for ");
            head.append(quote_token);
            head.append(" -> ");
            head.append(based_token);
            head.append("\n");
            head
        } else {
            let mut head = String::from_str("Order for ");
            head.append(format_units(&self.amount, decimals).as_str());
            head.append(" ");
            head.append(quote_token);
            head.append(" -> ");
            head.append(based_token);
            head.append("\n");
            head
        };
        message.append("price: ");
        message.append(biguint_to_string(&self.price).as_str());
        message.append("\nNonce: ");
        let nonce = biguint_from_u128(self.nonce.0 as u128);
        message.append(biguint_to_string(&nonce).as_str());
        message
    }

    /// Signs the order: the signature of its canonical form under the signer's key replaces
    /// the one it had. Nothing else changes. The new signature is well formed: checking it is
    /// never an error.
    pub fn sign(&mut self, params: &CryptoParams, signer: &ZkLinkSigner) -> (r: Result<
        (),
        ZkSignerError,
    >)
        requires
            old(self)@.encodable(),
        ensures
            r is Ok,
            final(self)@ == (OrderView {
                signature: signature_of(signer.private_key(), old(self)@.bytes()),
                ..old(self)@
            }),
            verification(final(self)@.bytes(), final(self)@.signature) is Ok,
    {
        let bytes = self.get_bytes();
        match signer.sign_musig(params, bytes.as_slice()) {
            Ok(signature) => {
                self.signature = signature;
                Ok(())
            },
            Err(e) => Err(e),
        }
    }

    /// The signature that the order carries.
    pub fn signature(&self) -> (signature: ZkLinkSignature)
        ensures
            signature@ == self@.signature,
    {
        self.signature
    }

    /// Whether the signature that the order carries is one of its canonical form.
    pub fn is_signature_valid(&self, params: &CryptoParams) -> (r: Result<bool, ZkSignerError>)
        requires
            self@.encodable(),
        ensures
            r == verification(self@.bytes(), self@.signature),
    {
        let bytes = self.get_bytes();
        self.signature.verify_musig(params, bytes.as_slice())
    }

    /// Checks the fields in their order and reports the first that fails.
    pub fn validate(&self) -> (r: Result<(), ValidationError>)
        ensures
            match r {
                Ok(_) => self@.violation() is None,
                Err(e) => self@.violation() == Some(e),
            },
    {
        if let Err(reason) = account_validator(&self.account_id) {
            return Err(ValidationError { field: Field::AccountId, reason });
        }
        if let Err(reason) = sub_account_validator(&self.sub_account_id) {
            return Err(ValidationError { field: Field::SubAccountId, reason });
        }
        if let Err(reason) = slot_id_validator(&self.slot_id) {
            return Err(ValidationError { field: Field::SlotId, reason });
        }
        if let Err(reason) = nonce_validator(&self.nonce) {
            return Err(ValidationError { field: Field::Nonce, reason });
        }
        if let Err(reason) = token_validator(&self.base_token_id) {
            return Err(ValidationError { field: Field::BaseTokenId, reason });
        }
        if let Err(reason) = token_validator(&self.quote_token_id) {
            return Err(ValidationError { field: Field::QuoteTokenId, reason });
        }
        if let Err(reason) = amount_packable(&self.amount) {
            return Err(ValidationError { field: Field::Amount, reason });
        }
        if let Err(reason) = price_validator(&self.price) {
            return Err(ValidationError { field: Field::Price, reason });
        }
        if let Err(reason) = boolean_validator(self.is_sell) {
            return Err(ValidationError { field: Field::IsSell, reason });
        }
        Ok(())
    }

    /// Whether every field passes its check.
    pub fn is_validate(&self) -> (r: bool)
        ensures
            r == self@.valid(),
    {
        self.validate().is_ok()
    }
}

/// Bytes of the nonce of an order on the wire.
pub const ORDER_NONCE_BYTES: usize = 3;

/// The transaction that matches a maker's order with a taker's.
#[derive(Default, Debug, Clone)]
pub struct OrderMatching {
    /// The account that submits the match.
    pub account_id: AccountId,
    pub sub_account_id: SubAccountId,
    pub taker: Order,
    pub maker: Order,
    /// The fee of the transaction, sent packed.
    pub fee: BigUint,
    pub fee_token: TokenId,
    /// The most base token that the submitter expects to be traded; sent in full, since the
    /// difference of two packable amounts need not be packable.
    pub expect_base_amount: BigUint,
    /// The most quote token that the submitter expects to be traded; sent in full.
    pub expect_quote_amount: BigUint,
    pub signature: ZkLinkSignature,
}

/// What an order matching holds, as numbers.
pub struct OrderMatchingView {
    pub account_id: nat,
    pub sub_account_id: nat,
    pub taker: OrderView,
    pub maker: OrderView,
    pub fee: nat,
    pub fee_token: nat,
    pub expect_base_amount: nat,
    pub expect_quote_amount: nat,
    pub signature: Seq<u8>,
}

impl View for OrderMatching {
    type V = OrderMatchingView;

    open spec fn view(&self) -> OrderMatchingView {
        OrderMatchingView {
            account_id: self.account_id@,
            sub_account_id: self.sub_account_id@,
            taker: self.taker@,
            maker: self.maker@,
            fee: biguint_value(self.fee),
            fee_token: self.fee_token@,
            expect_base_amount: biguint_value(self.expect_base_amount),
            expect_quote_amount: biguint_value(self.expect_quote_amount),
            signature: self.signature@,
        }
    }
}

/// The block that an order matching commits to: the maker's bytes, then the taker's, cut or
/// zero-filled to 178 bytes.
pub open spec fn orders_block_of(maker: Seq<u8>, taker: Seq<u8>) -> Seq<u8> {
    resized(maker + taker, ORDERS_BYTES as nat)
}

impl OrderMatchingView {
    /// The transaction can be written: both orders can, the fee is within the range of a
    /// packed fee, and the two expected amounts fit 16 bytes.
    pub open spec fn encodable(self) -> bool {
        &&& self.taker.encodable()
        &&& self.maker.encodable()
        &&& self.fee <= max_fee_amount()
        &&& self.expect_base_amount <= MAX_UNPACKABLE_AMOUNT
        &&& self.expect_quote_amount <= MAX_UNPACKABLE_AMOUNT
    }

    /// The canonical form of the transaction, 74 bytes: the tag `0x08`, account (4),
    /// sub-account (1), the commitment to the two orders (32), fee token (2), packed fee (2),
    /// and the two expected amounts in full (16 each).
    pub open spec fn bytes(self) -> Seq<u8> {
        seq![0x08u8] + be_bytes(self.account_id, 4) + be_bytes(self.sub_account_id, 1)
            + orders_digest(orders_block_of(self.maker.bytes(), self.taker.bytes())) + be_bytes(
            self.fee_token,
            2,
        ) + fee_amount_packed(self.fee) + be_bytes(self.expect_base_amount, 16) + be_bytes(
            self.expect_quote_amount,
            16,
        )
    }

    /// The first field that fails its check, in the order of the fields, or `None` when all
    /// pass. An order that fails is reported as a whole, with the reason of its own first
    /// failure.
    pub open spec fn violation(self) -> Option<ValidationError> {
        if self.account_id > MAX_ACCOUNT_ID {
            Some(ValidationError { field: Field::AccountId, reason: Reason::RangeError })
        } else if self.sub_account_id > MAX_SUB_ACCOUNT_ID {
            Some(ValidationError { field: Field::SubAccountId, reason: Reason::RangeError })
        } else if self.taker.violation() is Some {
            Some(ValidationError { field: Field::Taker, reason: self.taker.violation()->0.reason })
        } else if self.maker.violation() is Some {
            Some(ValidationError { field: Field::Maker, reason: self.maker.violation()->0.reason })
        } else if !fee_amount_packable(self.fee) {
            Some(ValidationError { field: Field::Fee, reason: Reason::UnpackableAmount })
        } else if self.fee_token > MAX_TOKEN_ID {
            Some(ValidationError { field: Field::FeeToken, reason: Reason::RangeError })
        } else if self.expect_base_amount > MAX_UNPACKABLE_AMOUNT {
            Some(ValidationError { field: Field::ExpectBaseAmount, reason: Reason::RangeError })
        } else if self.expect_quote_amount > MAX_UNPACKABLE_AMOUNT {
            Some(ValidationError { field: Field::ExpectQuoteAmount, reason: Reason::RangeError })
        } else {
            None
        }
    }

    /// Every field passes its check, those of the two orders included.
    pub open spec fn valid(self) -> bool {
        self.violation() is None
    }
}

/// The block of two orders always has 178 bytes: what the two forms hold beyond that is
/// cut, what they leave is zero.
pub proof fn law_orders_block_width(maker: Seq<u8>, taker: Seq<u8>)
    ensures
        orders_block_of(maker, taker).len() == ORDERS_BYTES,
        forall|i: int|
            0 <= i < ORDERS_BYTES ==> #[trigger] orders_block_of(maker, taker)[i] == (if i
                < maker.len() {
                maker[i]
            } else if i < maker.len() + taker.len() {
                taker[i - maker.len()]
            } else {
                0u8
            }),
{
}

/// A valid order matching holds two valid orders and can be written.
pub proof fn law_valid_order_matching(tx: OrderMatchingView)
    requires
        tx.valid(),
    ensures
        tx.taker.valid(),
        tx.maker.valid(),
        tx.encodable(),
{
}

/// Joins the canonical forms of two orders into the block that is committed to: 178 bytes,
/// cut where the two are longer, zero-filled where they are shorter.
pub fn orders_block(maker: &[u8], taker: &[u8]) -> (block: Vec<u8>)
    ensures
        block@ == orders_block_of(maker@, taker@),
        block@.len() == ORDERS_BYTES,
{
    let mut block: Vec<u8> = Vec::with_capacity(ORDERS_BYTES);
    let mut i: usize = 0;
    while i < ORDERS_BYTES
        invariant
            i <= ORDERS_BYTES,
            block@.len() == i,
            forall|j: int| 0 <= j < i ==> block@[j] == orders_block_of(maker@, taker@)[j],
        decreases ORDERS_BYTES - i,
    {
        let byte = if i < maker.len() {
            maker[i]
        } else if i - maker.len() < taker.len() {
            taker[i - maker.len()]
        } else {
            0u8
        };
        block.push(byte);
        i = i + 1;
    }
    assert(block@ =~= orders_block_of(maker@, taker@));
    block
}

impl OrderMatching {
    /// The tag that begins the canonical form of an order matching.
    pub const TX_TYPE: u8 = 0x08;

    /// Makes an order matching that is not signed yet: its signature is the empty one.
    pub fn new(
        account_id: AccountId,
        sub_account_id: SubAccountId,
        taker: Order,
        maker: Order,
        fee: BigUint,
        fee_token: TokenId,
        expect_base_amount: BigUint,
        expect_quote_amount: BigUint,
    ) -> (tx: OrderMatching)
        ensures
            tx@ == (OrderMatchingView {
                account_id: account_id@,
                sub_account_id: sub_account_id@,
                taker: taker@,
                maker: maker@,
                fee: biguint_value(fee),
                fee_token: fee_token@,
                expect_base_amount: biguint_value(expect_base_amount),
                expect_quote_amount: biguint_value(expect_quote_amount),
                signature: zero_bytes(96),
            }),
    {
        OrderMatching {
            account_id,
            taker,
            maker,
            fee,
            fee_token,
            sub_account_id,
            expect_base_amount,
            expect_quote_amount,
            signature: ZkLinkSignature::default(),
        }
    }

    /// Whether the transaction can be written: `get_bytes`, `sign` and `is_signature_valid`
    /// ask for this. Every valid order matching can.
    pub fn is_encodable(&self) -> (r: bool)
        ensures
            r == self@.encodable(),
    {
        let largest = largest_fee_amount();
        self.taker.is_encodable() && self.maker.is_encodable() && biguint_le(&self.fee, &largest)
            && amount_unpackable(&self.expect_base_amount).is_ok() && amount_unpackable(
            &self.expect_quote_amount,
        ).is_ok()
    }

    /// Encodes the transaction in its canonical form.
    pub fn get_bytes(&self, params: &CryptoParams) -> (bytes: Vec<u8>)
        requires
            self@.encodable(),
        ensures
            bytes@ == self@.bytes(),
            bytes@.len() == 74,
    {
        let maker_order_bytes = self.maker.get_bytes();
        let taker_order_bytes = self.taker.get_bytes();
        let orders_bytes = orders_block(maker_order_bytes.as_slice(), taker_order_bytes.as_slice());
        let expect_base = biguint_to_u128(&self.expect_base_amount).unwrap();
        let expect_quote = biguint_to_u128(&self.expect_quote_amount).unwrap();

        let mut out: Vec<u8> = Vec::with_capacity(SIGNED_ORDER_MATCHING_BIT_WIDTH / 8);
        out.push(Self::TX_TYPE);
        extend(&mut out, self.account_id.to_be_bytes().as_slice());
        extend(&mut out, self.sub_account_id.to_be_bytes().as_slice());
        extend(&mut out, rescue_hash_orders(params, orders_bytes.as_slice()).as_slice());
        extend(&mut out, self.fee_token.to_be_bytes().as_slice());
        extend(&mut out, pack_fee_amount(&self.fee).as_slice());
        extend(&mut out, to_be_bytes(expect_base, 16).as_slice());
        extend(&mut out, to_be_bytes(expect_quote, 16).as_slice());
        proof {
            assert(out@ =~= self@.bytes());
            lemma_be_bytes_len(self@.account_id, 4);
            lemma_be_bytes_len(self@.sub_account_id, 1);
            lemma_be_bytes_len(self@.fee_token, 2);
            lemma_be_bytes_len(self@.expect_base_amount, 16);
            lemma_be_bytes_len(self@.expect_quote_amount, 16);
        }
        out
    }

    /// The hash of the transaction: the SHA-256 digest of its canonical form.
    pub fn tx_hash(&self, params: &CryptoParams) -> (hash: TxHash)
        requires
            self@.encodable(),
        ensures
            hash@ == sha256(self@.bytes()),
    {
        let bytes = self.get_bytes(params);
        TxHash::of_bytes(bytes.as_slice())
    }

    /// Signs the transaction: the signature of its canonical form under the signer's key
    /// replaces the one it had. Nothing else changes, the two orders and their own
    /// signatures included. The new signature is well formed: checking it is never an error.
    pub fn sign(&mut self, params: &CryptoParams, signer: &ZkLinkSigner) -> (r: Result<
        (),
        ZkSignerError,
    >)
        requires
            old(self)@.encodable(),
        ensures
            r is Ok,
            final(self)@ == (OrderMatchingView {
                signature: signature_of(signer.private_key(), old(self)@.bytes()),
                ..old(self)@
            }),
            verification(final(self)@.bytes(), final(self)@.signature) is Ok,
    {
        let bytes = self.get_bytes(params);
        match signer.sign_musig(params, bytes.as_slice()) {
            Ok(signature) => {
                self.signature = signature;
                Ok(())
            },
            Err(e) => Err(e),
        }
    }

    /// The signature that the transaction carries.
    pub fn signature(&self) -> (signature: ZkLinkSignature)
        ensures
            signature@ == self@.signature,
    {
        self.signature
    }

    /// Checks the fields in their order and reports the first that fails.
    pub fn validate(&self) -> (r: Result<(), ValidationError>)
        ensures
            match r {
                Ok(_) => self@.violation() is None,
                Err(e) => self@.violation() == Some(e),
            },
    {
        if let Err(reason) = account_validator(&self.account_id) {
            return Err(ValidationError { field: Field::AccountId, reason });
        }
        if let Err(reason) = sub_account_validator(&self.sub_account_id) {
            return Err(ValidationError { field: Field::SubAccountId, reason });
        }
        if let Err(e) = self.taker.validate() {
            return Err(ValidationError { field: Field::Taker, reason: e.reason });
        }
        if let Err(e) = self.maker.validate() {
            return Err(ValidationError { field: Field::Maker, reason: e.reason });
        }
        if let Err(reason) = fee_packable(&self.fee) {
            return Err(ValidationError { field: Field::Fee, reason });
        }
        if let Err(reason) = token_validator(&self.fee_token) {
            return Err(ValidationError { field: Field::FeeToken, reason });
        }
        if let Err(reason) = amount_unpackable(&self.expect_base_amount) {
            return Err(ValidationError { field: Field::ExpectBaseAmount, reason });
        }
        if let Err(reason) = amount_unpackable(&self.expect_quote_amount) {
            return Err(ValidationError { field: Field::ExpectQuoteAmount, reason });
        }
        Ok(())
    }

    /// Whether every field passes its check, those of the two orders included.
    pub fn is_validate(&self) -> (r: bool)
        ensures
            r == self@.valid(),
    {
        match self.validate() {
            Ok(_) => self.maker.is_validate() && self.taker.is_validate(),
            Err(_) => false,
        }
    }

    /// Whether the signature that the transaction carries is one of its canonical form.
    pub fn is_signature_valid(&self, params: &CryptoParams) -> (r: Result<bool, ZkSignerError>)
        requires
            self@.encodable(),
        ensures
            r == verification(self@.bytes(), self@.signature),
    {
        let bytes = self.get_bytes(params);
        self.signature.verify_musig(params, bytes.as_slice())
    }
}

} // verus!
