//! Sources of pipeline definitions.

use vstd::prelude::*;

use crate::pipeline::UtcTimestamp;

verus! {

/// Where a code registry takes its definitions from.
#[derive(Clone, Copy, Debug, PartialEq, Eq, Structural)]
#[non_exhaustive]
pub enum CodeRegistrySource {
    Git,
    LocalPath,
    Registry,
}

/// The loading status of a code registry.
#[derive(Clone, Copy, Debug, PartialEq, Eq, Structural)]
pub enum CodeRegistryStatus {
    /// Syncing or parsing.
    Loading,
    /// Definitions successfully loaded.
    Loaded,
    /// Definitions failed to load.
    Error,
}

/// A code registry, as stored.
#[derive(Debug)]
pub struct CodeRegistry {
    pub id: u128,
    pub name: String,
    pub source_type: CodeRegistrySource,
    /// Git URL, branch or commit, path, or registry information.
    pub metadata: serde_json::Value,
    pub status: CodeRegistryStatus,
    pub status_message: Option<String>,
    pub last_updated: UtcTimestamp,
    pub last_loaded: Option<UtcTimestamp>,
    pub created_at: UtcTimestamp,
    pub updated_at: UtcTimestamp,
}

/// A pipeline registry that the scheduler reaches over the network.
#[derive(Debug)]
pub struct PipelineRegistry {
    pub id: u128,
    pub name: String,
    pub source_type: CodeRegistrySource,
    pub metadata: serde_json::Value,
    pub address: String,
}

} // verus!
