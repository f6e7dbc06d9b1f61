//! Keypairs, Ed25519 message signing and verification, and construction of
//! ledger instructions (token mint initialization, minting, native and token
//! transfers), each with its validation rules stated as contracts.
pub mod address;
pub mod error;
pub mod instruction;
pub mod keypair;
pub mod message;
pub mod mint_token;
pub mod send_sol;
pub mod send_token;
pub mod send_token_simple;
pub mod spl_token;
