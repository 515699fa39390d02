//! Plain value types standing for on-chain identifiers and amounts.
//!
//! Filters and records carry 20-byte account addresses, 32-byte hashes,
//! and 256-bit unsigned amounts. The core forwards them verbatim, so they
//! are held here as their raw big-endian bytes.

use vstd::prelude::*;

verus! {

/// A 20-byte account address.
#[derive(Clone, Copy, Debug, PartialEq, Eq, Hash)]
pub struct Address(pub [u8; 20]);

/// A 32-byte hash: a transaction, topic, contract, or asset id.
#[derive(Clone, Copy, Debug, PartialEq, Eq, Hash)]
pub struct Hash256(pub [u8; 32]);

/// A 256-bit unsigned amount, big-endian.
#[derive(Clone, Copy, Debug, PartialEq, Eq, Hash)]
pub struct Uint256(pub [u8; 32]);

/// One block header record.
#[derive(Clone, Copy, Debug, PartialEq, Eq)]
pub struct BlockHeader {
    /// Hash of the block.
    pub hash: Uint256,
    /// Height of the block.
    pub block_number: u64,
    /// When the block was sealed.
    pub timestamp: i64,
}

} // verus!
