use crate::basic_types::error::TypeError;
use crate::crypto::error::ZkSignerError;
use crate::eth_signer::EthSignerError;
use vstd::prelude::*;

verus! {

/// Why a transaction could not be signed.
#[derive(Debug, Clone, Copy, PartialEq, Eq)]
pub enum SignError {
    /// The address derived from the CREATE2 data is not the address of the account.
    AuthorizationMismatch,
    /// The typed data for the Ethereum signature could not be made.
    Eip712Failed(TypeError),
    /// The Ethereum signature could not be made.
    EthSigningError(EthSignerError),
    /// The signature of the transaction could not be made.
    ZkSigningError(ZkSignerError),
}

} // verus!
