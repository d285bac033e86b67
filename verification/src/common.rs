//! Ordering and paging of listed runs.

use vstd::prelude::*;

verus! {

/// How to order listed runs.
#[derive(Clone, Copy, Debug, PartialEq, Eq, Structural)]
pub struct RunOrdering {
    pub field: RunOrderingField,
    pub direction: SortDirection,
}

/// The direction of an ordering.
#[derive(Clone, Copy, Debug, PartialEq, Eq, Structural)]
pub enum SortDirection {
    Ascending,
    Descending,
}

/// The field by which runs are ordered.
#[derive(Clone, Copy, Debug, PartialEq, Eq, Structural)]
pub enum RunOrderingField {
    ExecutionId,
    DefinitionId,
    Status,
    StartTime,
    EndTime,
    CreatedAt,
    UpdatedAt,
}

/// A page of a listing.
#[derive(Clone, Copy, Debug, PartialEq, Eq, Structural)]
pub struct Pagination {
    pub limit: u64,
    pub offset: u64,
}

} // verus!
