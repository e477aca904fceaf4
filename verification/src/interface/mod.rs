//! Signing whole transactions.
pub mod error;
pub mod sign_change_pubkey;

use crate::eth_signer::PackedEthSignature;
use crate::tx_type::change_pubkey::{ChangePubKey, ChangePubKeyView, Create2Data};
use vstd::prelude::*;

verus! {

/// How the owner of an account is to prove agreement with a change of its key.
#[derive(Debug, Clone, PartialEq, Eq)]
pub enum ChangePubKeyAuthRequest {
    /// The owner agreed on layer one.
    OnChain,
    /// The owner signs with the Ethereum key of the account.
    EthECDSA,
    /// The account is a contract made with CREATE2 from `data`.
    EthCreate2 { data: Create2Data },
}

/// A signed transaction of layer two.
#[derive(Debug, Clone)]
pub enum ZkLinkTx {
    ChangePubKey(ChangePubKey),
}

impl View for ZkLinkTx {
    type V = ChangePubKeyView;

    open spec fn view(&self) -> ChangePubKeyView {
        match self {
            ZkLinkTx::ChangePubKey(tx) => tx@,
        }
    }
}

/// A signed transaction, with the Ethereum signature that goes beside it, if any.
#[derive(Debug, Clone)]
pub struct TxSignature {
    pub tx: ZkLinkTx,
    pub eth_signature: Option<PackedEthSignature>,
}

} // verus!
