//! Wallet operations against a remote ledger: address and key decoding,
//! transfer construction, and the funding confirmation protocol.
pub mod error;
pub mod address;
pub mod message;
pub mod key;
pub mod requests;
pub mod transfer;
pub mod funding;
