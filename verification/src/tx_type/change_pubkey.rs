//! The transaction that sets the public key of an account, and the proofs that its owner
//! agrees.
use crate::basic_types::bigint::{biguint_le, biguint_value};
use crate::basic_types::error::TypeError;
use crate::basic_types::h256::H256;
use crate::basic_types::params::MAX_ACCOUNT_ID;
use crate::basic_types::tx_hash::TxHash;
use crate::basic_types::zklink_address::ZkLinkAddress;
use crate::basic_types::{AccountId, Nonce};
use crate::bytes::{
    array_from, be_bytes, extend, lemma_be_bytes_len, lemma_be_bytes_zero, pad_front,
    padded_front, to_be_bytes, zero_bytes,
};
use crate::crypto::digest::{keccak256, keccak256_digest, sha256};
use crate::crypto::error::ZkSignerError;
use crate::crypto::pk_signer::ZkLinkSigner;
use crate::crypto::primitives::CryptoParams;
use crate::crypto::signature::{PubKeyHash, ZkLinkSignature};
use crate::crypto::{signature_of, verification};
use crate::eth_signer::eip712::{
    bytes_word, domain_separator, hash_domain, hash_typed_data, typed_data_digest, uint_word,
    EIP712TypedData,
};
use crate::eth_signer::PackedEthSignature;
use crate::tx_type::pack::{
    fee_amount_packable, fee_amount_packed, largest_fee_amount, max_fee_amount,
    pack_fee_amount,
};
use crate::tx_type::validator::{
    account_validator, fee_packable, Field, Reason, ValidationError,
};
use num::BigUint;
use vstd::prelude::*;
use vstd::string::*;

verus! {

/// What a contract address is derived from when it is made with CREATE2.
#[derive(Debug, Clone, PartialEq, Eq)]
pub struct Create2Data {
    /// The address that deploys the contract.
    pub creator_address: ZkLinkAddress,
    /// The part of the salt that the deployer chooses.
    pub salt_arg: H256,
    /// The hash of the code that is deployed.
    pub code_hash: H256,
}

/// What a `Create2Data` holds, as bytes.
pub struct Create2View {
    pub creator_address: Seq<u8>,
    pub salt_arg: Seq<u8>,
    pub code_hash: Seq<u8>,
}

impl View for Create2Data {
    type V = Create2View;

    open spec fn view(&self) -> Create2View {
        Create2View {
            creator_address: self.creator_address@,
            salt_arg: self.salt_arg@,
            code_hash: self.code_hash@,
        }
    }
}

/// The address of a contract made with CREATE2: the last 20 bytes of the Keccak-256 digest
/// of `0xff`, the creator, the salt and the code hash, where the salt is the digest of the
/// chosen part and the public key hash that the contract is bound to.
pub open spec fn create2_address(data: Create2View, pubkey_hash: Seq<u8>) -> Seq<u8> {
    let salt = keccak256(data.salt_arg + pubkey_hash);
    keccak256(seq![0xffu8] + data.creator_address + salt + data.code_hash).subrange(12, 32)
}

impl Create2Data {
    /// The address of the contract that is bound to `pubkey_hash`.
    pub fn get_address(&self, pubkey_hash: &[u8]) -> (address: ZkLinkAddress)
        ensures
            address@ == create2_address(self@, pubkey_hash@),
    {
        let mut salt_preimage: Vec<u8> = Vec::new();
        extend(&mut salt_preimage, self.salt_arg.data.as_slice());
        extend(&mut salt_preimage, pubkey_hash);
        let salt = keccak256_digest(salt_preimage.as_slice());
        let mut preimage: Vec<u8> = Vec::new();
        preimage.push(0xff);
        extend(&mut preimage, self.creator_address.as_bytes());
        extend(&mut preimage, salt.as_slice());
        extend(&mut preimage, self.code_hash.data.as_slice());
        assert(preimage@ =~= seq![0xffu8] + self@.creator_address + salt@ + self@.code_hash);
        let digest = keccak256_digest(preimage.as_slice());
        let tail: [u8; 20] = array_from(digest.as_slice(), 12);
        ZkLinkAddress::from_evm_bytes(&tail)
    }
}

/// The proof, attached to a `ChangePubKey`, that the owner of the account agrees.
#[derive(Debug, Clone, PartialEq, Eq)]
pub enum ChangePubKeyAuthData {
    /// The owner agreed in a transaction on layer one; nothing is attached.
    OnChain,
    /// The owner signed the change with the Ethereum key of the account.
    EthECDSA { eth_signature: PackedEthSignature },
    /// The account is a contract made with CREATE2, whose address binds the new key.
    EthCreate2 { data: Create2Data },
}

/// What a `ChangePubKeyAuthData` holds, as bytes.
pub enum AuthDataView {
    OnChain,
    EthECDSA { eth_signature: Seq<u8> },
    EthCreate2 { data: Create2View },
}

impl View for ChangePubKeyAuthData {
    type V = AuthDataView;

    open spec fn view(&self) -> AuthDataView {
        match self {
            ChangePubKeyAuthData::OnChain => AuthDataView::OnChain,
            ChangePubKeyAuthData::EthECDSA { eth_signature } => AuthDataView::EthECDSA {
                eth_signature: eth_signature@,
            },
            ChangePubKeyAuthData::EthCreate2 { data } => AuthDataView::EthCreate2 { data: data@ },
        }
    }
}

impl AuthDataView {
    /// The proof on the wire: a byte that tells the kind, then what the kind attaches. A
    /// signature is its 65 bytes; CREATE2 data is the creator in 32 bytes, zeros in front,
    /// then the salt part and the code hash.
    pub open spec fn bytes(self) -> Seq<u8> {
        match self {
            AuthDataView::OnChain => seq![0u8],
            AuthDataView::EthECDSA { eth_signature } => seq![1u8] + eth_signature,
            AuthDataView::EthCreate2 { data } => seq![2u8] + padded_front(
                data.creator_address,
                32,
            ) + data.salt_arg + data.code_hash,
        }
    }
}

impl ChangePubKeyAuthData {
    /// The proof on the wire: 1, 66 or 97 bytes.
    pub fn get_bytes(&self) -> (bytes: Vec<u8>)
        ensures
            bytes@ == self@.bytes(),
            bytes@.len() <= 97,
    {
        let mut out: Vec<u8> = Vec::new();
        match self {
            ChangePubKeyAuthData::OnChain => {
                out.push(0);
            },
            ChangePubKeyAuthData::EthECDSA { eth_signature } => {
                out.push(1);
                extend(&mut out, eth_signature.as_bytes());
            },
            ChangePubKeyAuthData::EthCreate2 { data } => {
                out.push(2);
                extend(&mut out, pad_front(data.creator_address.as_bytes(), 32).as_slice());
                extend(&mut out, data.salt_arg.data.as_slice());
                extend(&mut out, data.code_hash.data.as_slice());
            },
        }
        assert(out@ =~= self@.bytes());
        out
    }
}

/// Sets the public key hash of an account.
#[derive(Debug, Clone)]
pub struct ChangePubKey {
    /// The account whose key is set.
    pub account_id: AccountId,
    /// The hash of the new public key.
    pub new_pk_hash: PubKeyHash,
    pub nonce: Nonce,
    /// The fee of the transaction, sent packed.
    pub fee: BigUint,
    /// The proof that the owner of the account agrees.
    pub eth_auth_data: ChangePubKeyAuthData,
    pub signature: ZkLinkSignature,
}

/// What a `ChangePubKey` holds, as numbers and bytes.
pub struct ChangePubKeyView {
    pub account_id: nat,
    pub new_pk_hash: Seq<u8>,
    pub nonce: nat,
    pub fee: nat,
    pub eth_auth_data: AuthDataView,
    pub signature: Seq<u8>,
}

impl View for ChangePubKey {
    type V = ChangePubKeyView;

    open spec fn view(&self) -> ChangePubKeyView {
        ChangePubKeyView {
            account_id: self.account_id@,
            new_pk_hash: self.new_pk_hash@,
            nonce: self.nonce@,
            fee: biguint_value(self.fee),
            eth_auth_data: self.eth_auth_data@,
            signature: self.signature@,
        }
    }
}

impl ChangePubKeyView {
    /// The transaction can be written: its fee is within the range of a packed fee.
    pub open spec fn encodable(self) -> bool {
        self.fee <= max_fee_amount()
    }

    /// The canonical form of the transaction: the tag `0x06`, account (4), the new public key
    /// hash (20), nonce (4), packed fee (2), and the proof of agreement.
    pub open spec fn bytes(self) -> Seq<u8> {
        seq![0x06u8] + be_bytes(self.account_id, 4) + self.new_pk_hash + be_bytes(self.nonce, 4)
            + fee_amount_packed(self.fee) + self.eth_auth_data.bytes()
    }

    /// The first field that fails its check, or `None` when all pass.
    pub open spec fn violation(self) -> Option<ValidationError> {
        if self.account_id > MAX_ACCOUNT_ID {
            Some(ValidationError { field: Field::AccountId, reason: Reason::RangeError })
        } else if !fee_amount_packable(self.fee) {
            Some(ValidationError { field: Field::Fee, reason: Reason::UnpackableAmount })
        } else {
            None
        }
    }

    /// Every field passes its check.
    pub open spec fn valid(self) -> bool {
        self.violation() is None
    }

    /// The hash of the message that the owner signs with an Ethereum key: the new public key
    /// hash, the nonce and the account.
    pub open spec fn eip712_message_hash(self) -> Seq<u8> {
        keccak256(
            keccak256(
                "ChangePubKey(bytes20 pubKeyHash,uint32 nonce,uint32 accountId)".spec_bytes(),
            ) + bytes_word(self.new_pk_hash) + uint_word(self.nonce) + uint_word(self.account_id),
        )
    }

    /// The digest that the owner signs with an Ethereum key, for the protocol's contract
    /// `contract` on chain `chain_id`.
    pub open spec fn eip712_digest(self, chain_id: nat, contract: Seq<u8>) -> Seq<u8> {
        typed_data_digest(domain_separator(chain_id, contract), self.eip712_message_hash())
    }
}

impl ChangePubKey {
    /// The tag that begins the canonical form of the transaction.
    pub const TX_TYPE: u8 = 0x06;

    /// Makes a transaction that is not signed yet. With an Ethereum signature the proof of
    /// agreement is that signature, without one it is the agreement on layer one.
    pub fn new(
        account_id: AccountId,
        new_pk_hash: PubKeyHash,
        nonce: Nonce,
        fee: BigUint,
        eth_signature: Option<PackedEthSignature>,
    ) -> (tx: ChangePubKey)
        ensures
            tx@ == (ChangePubKeyView {
                account_id: account_id@,
                new_pk_hash: new_pk_hash@,
                nonce: nonce@,
                fee: biguint_value(fee),
                eth_auth_data: match eth_signature {
                    Some(eth_signature) => AuthDataView::EthECDSA { eth_signature: eth_signature@ },
                    None => AuthDataView::OnChain,
                },
                signature: zero_bytes(96),
            }),
    {
        let eth_auth_data = match eth_signature {
            Some(eth_signature) => ChangePubKeyAuthData::EthECDSA { eth_signature },
            None => ChangePubKeyAuthData::OnChain,
        };
        ChangePubKey {
            account_id,
            new_pk_hash,
            nonce,
            fee,
            eth_auth_data,
            signature: ZkLinkSignature::default(),
        }
    }

    /// Whether the transaction can be written: `get_bytes`, `sign` and `is_signature_valid`
    /// ask for this. Every valid transaction can.
    pub fn is_encodable(&self) -> (r: bool)
        ensures
            r == self@.encodable(),
    {
        let largest = largest_fee_amount();
        biguint_le(&self.fee, &largest)
    }

    /// Encodes the transaction in its canonical form, the proof of agreement included: 32
    /// bytes when the owner agreed on layer one, 97 with an Ethereum signature, 128 with CREATE2
    /// data.
    pub fn get_bytes(&self) -> (bytes: Vec<u8>)
        requires
            self@.encodable(),
        ensures
            bytes@ == self@.bytes(),
            bytes@.len() == 31 + self@.eth_auth_data.bytes().len(),
            bytes@.len() <= 128,
    {
        let mut out: Vec<u8> = Vec::new();
        out.push(Self::TX_TYPE);
        extend(&mut out, self.account_id.to_be_bytes().as_slice());
        extend(&mut out, self.new_pk_hash.as_bytes());
        extend(&mut out, self.nonce.to_be_bytes().as_slice());
        extend(&mut out, pack_fee_amount(&self.fee).as_slice());
        extend(&mut out, self.eth_auth_data.get_bytes().as_slice());
        proof {
            assert(out@ =~= self@.bytes());
            lemma_be_bytes_len(self@.account_id, 4);
            lemma_be_bytes_len(self@.nonce, 4);
        }
        out
    }

    /// The typed data that the owner signs with an Ethereum key, for the protocol's contract
    /// `main_contract` on the chain with id `l1_client_id`.
    ///
    /// Fails with `SizeMismatch` unless the contract's address has 20 bytes.
    pub fn to_eip712_request_payload(&self, l1_client_id: u32, main_contract: &ZkLinkAddress) -> (r:
        Result<EIP712TypedData, TypeError>)
        ensures
            match r {
                Ok(typed_data) => main_contract@.len() == 20 && typed_data.data_hash@
                    == self@.eip712_digest(l1_client_id as nat, main_contract@),
                Err(e) => main_contract@.len() != 20 && e == TypeError::SizeMismatch,
            },
    {
        let contract = main_contract.as_bytes();
        if contract.len() != 20 {
            return Err(TypeError::SizeMismatch);
        }
        let domain_separator = hash_domain(l1_client_id, contract);
        let mut preimage: Vec<u8> = Vec::new();
        extend(
            &mut preimage,
            keccak256_digest(
                "ChangePubKey(bytes20 pubKeyHash,uint32 nonce,uint32 accountId)".as_bytes(),
            ).as_slice(),
        );
        extend(&mut preimage, self.new_pk_hash.as_bytes());
        extend(&mut preimage, to_be_bytes(0, 12).as_slice());
        extend(&mut preimage, to_be_bytes(self.nonce.0 as u128, 32).as_slice());
        extend(&mut preimage, to_be_bytes(self.account_id.0 as u128, 32).as_slice());
        proof {
            lemma_be_bytes_zero(12);
            assert(self@.new_pk_hash.len() == 20);
            assert(preimage@ =~= keccak256(
                "ChangePubKey(bytes20 pubKeyHash,uint32 nonce,uint32 accountId)".spec_bytes(),
            ) + bytes_word(self@.new_pk_hash) + uint_word(self@.nonce) + uint_word(
                self@.account_id,
            ));
        }
        let message_hash = H256 { data: keccak256_digest(preimage.as_slice()) };
        let data_hash = hash_typed_data(&domain_separator, &message_hash);
        Ok(EIP712TypedData { domain_separator, message_hash, data_hash })
    }

    /// The hash of the transaction: the SHA-256 digest of its canonical form.
    pub fn tx_hash(&self) -> (hash: TxHash)
        requires
            self@.encodable(),
        ensures
            hash@ == sha256(self@.bytes()),
    {
        let bytes = self.get_bytes();
        TxHash::of_bytes(bytes.as_slice())
    }

    /// Signs the transaction: the signature of its canonical form under the signer's key
    /// replaces the one it had. Nothing else changes. The new signature is well formed:
    /// checking it is never an error.
    pub fn sign(&mut self, params: &CryptoParams, signer: &ZkLinkSigner) -> (r: Result<
        (),
        ZkSignerError,
    >)
        requires
            old(self)@.encodable(),
        ensures
            r is Ok,
            final(self)@ == (ChangePubKeyView {
                signature: signature_of(signer.private_key(), old(self)@.bytes()),
                ..old(self)@
            }),
            verification(final(self)@.bytes(), final(self)@.signature) is Ok,
    {
        let bytes = self.get_bytes();
        match signer.sign_musig(params, bytes.as_slice()) {
            Ok(signature) => {
                self.signature = signature;
                Ok(())
            },
            Err(e) => Err(e),
        }
    }

    /// Whether the signature that the transaction carries is one of its canonical form.
    pub fn is_signature_valid(&self, params: &CryptoParams) -> (r: Result<bool, ZkSignerError>)
        requires
            self@.encodable(),
        ensures
            r == verification(self@.bytes(), self@.signature),
    {
        let bytes = self.get_bytes();
        self.signature.verify_musig(params, bytes.as_slice())
    }

    /// Checks the fields in their order and reports the first that fails.
    pub fn validate(&self) -> (r: Result<(), ValidationError>)
        ensures
            match r {
                Ok(_) => self@.violation() is None,
                Err(e) => self@.violation() == Some(e),
            },
    {
        if let Err(reason) = account_validator(&self.account_id) {
            return Err(ValidationError { field: Field::AccountId, reason });
        }
        if let Err(reason) = fee_packable(&self.fee) {
            return Err(ValidationError { field: Field::Fee, reason });
        }
        Ok(())
    }

    /// Whether every field passes its check.
    pub fn is_validate(&self) -> (r: bool)
        ensures
            r == self@.valid(),
    {
        self.validate().is_ok()
    }
}

} // verus!
