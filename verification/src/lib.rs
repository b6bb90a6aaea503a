//! Exchange-and-withdrawal engine of a token sale contract.
//!
//! The crate computes, from plain values, the ordered commands and audit
//! attributes that a host chain executes: the purchase of tokens at an oracle
//! price, the owner-gated withdrawal chain (claim, convert, send) and the
//! stake delegation instructions.
pub mod coin;
pub mod conversion;
pub mod ledger;
pub mod mock_querier;
pub mod msg;
pub mod oracle;
pub mod purchase;
pub mod response;
pub mod state;
pub mod swap;
pub mod swap2;
pub mod error;
pub mod host;
pub mod text;
