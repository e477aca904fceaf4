pub mod basic_types;
pub mod bytes;
pub mod crypto;
pub mod eth_signer;
pub mod interface;
pub mod tx_type;
