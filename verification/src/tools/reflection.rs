//! Inputs of the reflection tools.

pub mod definitions;

use vstd::prelude::*;

verus! {

/// Tool: Create a reflection
#[derive(Debug)]
pub struct CreateReflectionInput {
    pub title: String,
    pub description: String,
    pub reflection_type: String,
    pub experience_ids: Vec<String>,
}

/// Tool: Analyze patterns
#[derive(Debug)]
pub struct AnalyzePatternsInput {
    pub experience_ids: Vec<String>,
}

} // verus!
