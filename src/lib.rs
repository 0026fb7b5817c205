//! Custody token accounts that the holder of an Ethereum key can claim from.
//!
//! Each `(mint, Ethereum address)` pair owns one custody account whose address
//! is derived from the pair alone. A claim moves tokens out of it once a
//! secp256k1 signature by that Ethereum address over the destination has been
//! attested in the same transaction.

pub mod address;
pub mod error;
pub mod instruction;
pub mod processor;

pub use address::{derive_pair, Address, AddressPair, EthereumAddress, ProgramAddress};
pub use error::Error;
pub use instruction::{
    claim, init, AccountMeta, Claim, ClaimableProgramInstruction, CreateTokenAccount, Instruction,
};
pub use processor::{
    process_claim, process_create_token_account, settle_claim, Attestation, TokenAccount,
};
