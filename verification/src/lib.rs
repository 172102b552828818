//! A registry of the supported networks of an inscription indexer.
//!
//! Each [`chain::Chain`] variant maps to a fixed bundle of consensus and
//! operational parameters: the consensus network identifier, the default RPC
//! port, the activation heights of the two indexed protocols, the hardcoded
//! genesis block, the address-encoding rules, and the per-chain data
//! directory layout.

pub mod address;
pub mod chain;
pub mod genesis;

pub use address::AddressError;
pub use chain::Chain;
