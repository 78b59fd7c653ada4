//! Inputs of the hypothesis engine tools: observation, hypothesis, evidence, knowledge.

pub mod definitions;

use vstd::prelude::*;
use crate::text::owned;

verus! {

/// Record an observation
#[derive(Debug)]
pub struct RecordObservationInput {
    pub content: String,
    pub context: String,
    pub observation_type: String,
}

/// Create a hypothesis
#[derive(Debug)]
pub struct CreateHypothesisInput {
    pub statement: String,
    pub domain: String,
    pub source_observations: Vec<String>,
}

/// Get hypothesis details
#[derive(Debug)]
pub struct GetHypothesisInput {
    pub hypothesis_id: String,
}

/// Get observation by ID
#[derive(Debug)]
pub struct GetObservationInput {
    pub observation_id: String,
}

/// List hypotheses with optional filter
#[derive(Debug)]
pub struct ListHypothesesInput {
    pub domain: Option<String>,
    pub status: Option<String>,
    pub limit: Option<usize>,
}

/// List observations
#[derive(Debug)]
pub struct ListObservationsInput {
    pub observation_type: Option<String>,
    pub limit: Option<usize>,
}

/// Get learned knowledge
#[derive(Debug)]
pub struct GetKnowledgeInput {
    pub domain: Option<String>,
    pub limit: Option<usize>,
}

/// Evaluate and update hypothesis status
#[derive(Debug)]
pub struct EvaluateHypothesisInput {
    pub hypothesis_id: String,
}

/// Convert supported hypothesis to knowledge
#[derive(Debug)]
pub struct ExtractKnowledgeInput {
    pub hypothesis_id: String,
    pub knowledge_content: String,
}

/// A value bound to a parameter of an SQL statement.
#[derive(Debug, Clone, PartialEq, Eq)]
pub enum SqlParam {
    Text(String),
    Integer(i64),
}

/// The columns listed for hypotheses.
pub const HYPOTHESIS_COLUMNS: &'static str = "SELECT id, statement, domain, status, confidence, supporting_count, contradicting_count, created_at, updated_at \n                 FROM hypotheses";

/// The statement listing hypotheses for the filters given, most recently
/// updated first, and its parameters: the domain, then the status, then
/// the limit (10 by default), each only when used.
pub fn list_hypotheses_query(input: &ListHypothesesInput) -> (r: (String, Vec<SqlParam>))
    ensures
        r.1@.len() == (if input.domain is Some { 1int } else { 0int }) + (if input.status is Some {
            1int
        } else {
            0int
        }) + 1,
        r.1@.last() == SqlParam::Integer(
            match input.limit {
                Some(l) => l as i64,
                None => 10,
            },
        ),
        input.domain matches Some(d) ==> r.1@[0] == SqlParam::Text(d),
        input.status matches Some(st) ==> r.1@[if input.domain is Some { 1int } else { 0int }]
            == SqlParam::Text(st),
        r.0@ == HYPOTHESIS_COLUMNS@ + match (input.domain, input.status) {
            (Some(_), Some(_)) => " WHERE domain = ?1 AND status = ?2 ORDER BY updated_at DESC LIMIT ?3"@,
            (Some(_), None) => " WHERE domain = ?1 ORDER BY updated_at DESC LIMIT ?2"@,
            (None, Some(_)) => " WHERE status = ?1 ORDER BY updated_at DESC LIMIT ?2"@,
            (None, None) => " ORDER BY updated_at DESC LIMIT ?1"@,
        },
{
    let limit: i64 = match input.limit {
        Some(l) => l as i64,
        None => 10,
    };
    let mut params: Vec<SqlParam> = Vec::new();
    let mut sql = owned(HYPOTHESIS_COLUMNS);
    match (&input.domain, &input.status) {
        (Some(d), Some(st)) => {
            sql.append(" WHERE domain = ?1 AND status = ?2 ORDER BY updated_at DESC LIMIT ?3");
            params.push(SqlParam::Text(d.clone()));
            params.push(SqlParam::Text(st.clone()));
        },
        (Some(d), None) => {
            sql.append(" WHERE domain = ?1 ORDER BY updated_at DESC LIMIT ?2");
            params.push(SqlParam::Text(d.clone()));
        },
        (None, Some(st)) => {
            sql.append(" WHERE status = ?1 ORDER BY updated_at DESC LIMIT ?2");
            params.push(SqlParam::Text(st.clone()));
        },
        (None, None) => {
            sql.append(" ORDER BY updated_at DESC LIMIT ?1");
        },
    }
    params.push(SqlParam::Integer(limit));
    (sql, params)
}

/// The statement listing observations, newest first, of the type given if
/// any, and its parameters: the type when given, then the limit (10 by
/// default).
pub fn list_observations_query(input: &ListObservationsInput) -> (r: (&'static str, Vec<SqlParam>))
    ensures
        input.observation_type matches Some(t) ==> r.0@
            == "SELECT id, content, context, observation_type, created_at FROM observations WHERE observation_type = ?1 ORDER BY created_at DESC LIMIT ?2"@
            && r.1@ == seq![
            SqlParam::Text(t),
            SqlParam::Integer(
                match input.limit {
                    Some(l) => l as i64,
                    None => 10,
                },
            ),
        ],
        input.observation_type is None ==> r.0@
            == "SELECT id, content, context, observation_type, created_at FROM observations ORDER BY created_at DESC LIMIT ?1"@
            && r.1@ == seq![
            SqlParam::Integer(
                match input.limit {
                    Some(l) => l as i64,
                    None => 10,
                },
            ),
        ],
{
    let limit: i64 = match input.limit {
        Some(l) => l as i64,
        None => 10,
    };
    let mut params: Vec<SqlParam> = Vec::new();
    match &input.observation_type {
        Some(t) => {
            params.push(SqlParam::Text(t.clone()));
            params.push(SqlParam::Integer(limit));
            ("SELECT id, content, context, observation_type, created_at FROM observations WHERE observation_type = ?1 ORDER BY created_at DESC LIMIT ?2", params)
        },
        None => {
            params.push(SqlParam::Integer(limit));
            ("SELECT id, content, context, observation_type, created_at FROM observations ORDER BY created_at DESC LIMIT ?1", params)
        },
    }
}

} // verus!
