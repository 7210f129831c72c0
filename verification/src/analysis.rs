//! Results of the architecture analyses offered by the assistant.
use vstd::prelude::*;

use crate::ids::EntityId;

verus! {

/// Gaps between the current and the target architecture.
#[derive(Debug)]
pub struct GapAnalysisResult {
    pub gaps: Vec<Gap>,
    pub summary: String,
}

/// One gap and what to do about it.
#[derive(Debug)]
pub struct Gap {
    pub area: String,
    pub current: String,
    pub target: String,
    pub recommendation: String,
}

/// Duplicated or mergeable entities.
#[derive(Debug)]
pub struct RedundancyResult {
    pub duplicates: Vec<Duplicate>,
    pub mergeable: Vec<Mergeable>,
    pub summary: String,
}

/// Entities of one type that duplicate each other.
#[derive(Debug)]
pub struct Duplicate {
    pub entity_type: String,
    pub ids: Vec<EntityId>,
    pub reason: String,
}

/// An entity that could be merged into another.
#[derive(Debug)]
pub struct Mergeable {
    pub entity_type: String,
    pub source_id: EntityId,
    pub target_id: EntityId,
    pub reason: String,
}

} // verus!
