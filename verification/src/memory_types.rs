//! Kinds of items held by the layered memory.

use vstd::prelude::*;

verus! {

/// Kind of an item in the layered memory.
#[derive(Debug, Clone, Copy, PartialEq, Eq, Structural)]
pub enum MemoryType {
    Experience,
    Knowledge,
    Skill,
    Workflow,
    Context,
    Observation,
}

} // verus!
