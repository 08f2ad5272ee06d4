//! Models of small storage-backed contracts: an ERC-20 style ledger with a
//! pausable token on top of it, plus the surrounding getter/setter contracts
//! (a plain value cell, a bounds-checked override of its setter, and a
//! composite built from several parents).
//!
//! Every operation takes the authenticated caller as a plain argument and
//! works on in-memory state; the host boundary that supplies caller identity,
//! persistent storage and dispatch stays outside the library.

pub mod address;
pub mod base;
pub mod chained;
pub mod erc20;
pub mod method_override;
pub mod uint256;
pub mod utils;
