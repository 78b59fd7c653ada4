//! Inputs of the exploration tools.

pub mod definitions;

use vstd::prelude::*;
use crate::text::{spec_to_lowercase, str_eq, to_lowercase};

verus! {

/// Start a new exploration
#[derive(Debug)]
pub struct StartExplorationInput {
    pub title: String,
    pub purpose: String,
}

/// Get exploration status
#[derive(Debug)]
pub struct GetExplorationStatusInput {
    pub exploration_id: String,
}

/// Record an attempt during exploration
#[derive(Debug)]
pub struct RecordAttemptInput {
    pub exploration_id: String,
    pub action: String,
    pub expected_result: Option<String>,
    pub actual_result: Option<String>,
}

/// Evaluate a hypothesis
#[derive(Debug)]
pub struct EvaluateHypothesisInput {
    pub exploration_id: String,
    pub hypothesis_id: String,
    pub result: String,
}

/// Promote a finding to knowledge
#[derive(Debug)]
pub struct PromoteFindingInput {
    pub exploration_id: String,
    pub finding_id: String,
}

/// What an evaluation found of a hypothesis.
#[derive(Debug, Clone, Copy, PartialEq, Eq, Structural)]
pub enum HypothesisVerdict {
    Supported,
    PartiallySupported,
    Rejected,
    Unknown,
}

/// The verdict a (lower-cased) result word names; any other word is
/// `Unknown`.
pub open spec fn verdict_for(s: Seq<char>) -> HypothesisVerdict {
    if s == "supported"@ {
        HypothesisVerdict::Supported
    } else if s == "partially_supported"@ {
        HypothesisVerdict::PartiallySupported
    } else if s == "rejected"@ {
        HypothesisVerdict::Rejected
    } else {
        HypothesisVerdict::Unknown
    }
}

/// Read the result of an evaluation, ignoring case.
pub fn parse_hypothesis_verdict(result: &str) -> (r: HypothesisVerdict)
    ensures
        r == verdict_for(spec_to_lowercase(result@)),
{
    let lower = to_lowercase(result);
    let l = lower.as_str();
    if str_eq(l, "supported") {
        HypothesisVerdict::Supported
    } else if str_eq(l, "partially_supported") {
        HypothesisVerdict::PartiallySupported
    } else if str_eq(l, "rejected") {
        HypothesisVerdict::Rejected
    } else {
        HypothesisVerdict::Unknown
    }
}

} // verus!
