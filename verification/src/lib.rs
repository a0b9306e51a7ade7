//! The decisions of a settlement client that posts block commitments to the MCR contract on
//! Ethereum: how a commitment is put to the contract and read back, how a transaction is priced,
//! retried and given up, and what a client is built from.
//!
//! Nothing here talks to a node. The callers perform the requests that the library asks for and
//! hand back what the node answered.
pub mod address;
pub mod client;
pub mod commitment;
pub mod config;
pub mod error;
pub mod gas;
pub mod hex;
pub mod runs;
pub mod send_tx;
pub mod signer;
pub mod steps;
pub mod stream;
pub mod text;
pub mod uint;
