//! Health status records of the service.

use vstd::prelude::*;

verus! {

use crate::types::ChainId;

/// What kind of service a status record describes.
#[derive(Clone, Copy, Debug, Default, Hash, PartialEq, Eq, Structural)]
pub enum Type {
    #[default]
    Unknown,
    Chain,
    Toolbox,
}

/// Health of a service.
#[derive(Clone, Copy, Debug, Default, Hash, PartialEq, Eq, Structural)]
pub enum HealthStatus {
    #[default]
    Healthy,
}

/// One status record as the status endpoint reports it.
#[derive(Clone, Debug, Default, PartialEq, Eq, Hash)]
pub struct Status {
    /// Kind of service the record describes.
    pub kind: Type,
    /// Chain the service belongs to.
    pub chain: ChainId,
    /// Short code of that chain.
    pub chain_code: String,
    /// Human-readable name of that chain.
    pub chain_name: String,
    /// Name of the service.
    pub service: String,
    /// Entity the service runs for.
    pub entity: String,
    /// Highest block the service has seen.
    pub latest_block_height: u64,
    /// When the record was taken.
    pub timestamp: u64,
    /// Health of the service.
    pub status: HealthStatus,
}

} // verus!
