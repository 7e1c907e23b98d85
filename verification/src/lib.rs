//! An escrowed one-for-one NFT exchange protocol.
//!
//! A party locks a uniquely identified asset as an offer (an `Exchange`); the
//! invited counter-party may lock the requested asset against it (a
//! `CounterOffer`); either matched party may then trigger settlement, which
//! emits the paired transfer instructions and archives the exchange. Absent a
//! counter-offer, the offering party may reclaim its asset, and a configured
//! owner may force-unwind all outstanding offers in bulk.
//!
//! The protocol never moves assets itself: it only constructs
//! `TransferInstruction` values for an external custody service to execute.

pub mod addr;
pub mod contract;
pub mod error;
pub mod ids;
pub mod msg;
pub mod package;
pub mod registry;
pub mod state;
