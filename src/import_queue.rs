//! Stages of a book import.

use vstd::prelude::*;

verus! {

/// Where an import task stands.
#[derive(Debug, Clone, PartialEq)]
pub enum ImportStatus {
    Pending,
    Parsing,
    ExtractingAssets,
    BuildingIndex,
    Completed,
    /// Failed, with the error message.
    Failed(String),
}

} // verus!
