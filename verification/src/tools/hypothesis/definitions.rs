//! Definitions of the hypothesis tools: names, descriptions and input schemas.

use vstd::prelude::*;
use crate::json::{JsonSpec, JsonValue, member_views};
use crate::skills::registry::texts;
use crate::text::owned;
use crate::tools::McpTool;
use crate::tools::plugins::{member, tool_views, ToolDefinition};
use crate::tools::schema::{list_prop, list_prop_value, object_value, object_with, prop, prop_value};

verus! {

/// The properties of `record_observation`'s input.
pub open spec fn record_observation_properties() -> Seq<(Seq<char>, JsonSpec)> {
    seq![
        ("content"@, prop("string"@, "What was observed"@)),
        ("context"@, prop("string"@, "Context or circumstances of the observation"@)),
        ("observation_type"@, prop("string"@, "Type: success, failure, pattern, anomaly"@)),
    ]
}

/// The properties of `create_hypothesis`'s input.
pub open spec fn create_hypothesis_properties() -> Seq<(Seq<char>, JsonSpec)> {
    seq![
        ("domain"@, prop("string"@, "Domain/category (e.g., workflow, tool, pattern)"@)),
        ("source_observations"@, list_prop("string"@, "IDs of observations that led to this hypothesis"@)),
        ("statement"@, prop("string"@, "The hypothesis statement (e.g., 'Using X approach improves Y outcome')"@)),
    ]
}

/// The properties of `add_evidence`'s input.
pub open spec fn add_evidence_properties() -> Seq<(Seq<char>, JsonSpec)> {
    seq![
        ("content"@, prop("string"@, "Description of the evidence"@)),
        ("direction"@, prop("string"@, "support or contradict"@)),
        ("evidence_type"@, prop("string"@, "Type: success, failure, correlation, anomaly"@)),
        ("hypothesis_id"@, prop("string"@, "ID of the hypothesis"@)),
        ("strength"@, prop("number"@, "Strength of evidence 0.0-1.0"@)),
    ]
}

/// The properties of `get_hypothesis`'s input.
pub open spec fn get_hypothesis_properties() -> Seq<(Seq<char>, JsonSpec)> {
    seq![
        ("hypothesis_id"@, prop("string"@, "ID of the hypothesis"@)),
    ]
}

/// The properties of `get_observation`'s input.
pub open spec fn get_observation_properties() -> Seq<(Seq<char>, JsonSpec)> {
    seq![
        ("observation_id"@, prop("string"@, "ID of the observation to retrieve"@)),
    ]
}

/// The properties of `list_hypotheses`'s input.
pub open spec fn list_hypotheses_properties() -> Seq<(Seq<char>, JsonSpec)> {
    seq![
        ("domain"@, prop("string"@, "Filter by domain/category"@)),
        ("limit"@, prop("integer"@, "Maximum number of results (default: 10)"@)),
        ("status"@, prop("string"@, "Filter by status: testing, supported, refuted, inconclusive, superseded"@)),
    ]
}

/// The properties of `list_observations`'s input.
pub open spec fn list_observations_properties() -> Seq<(Seq<char>, JsonSpec)> {
    seq![
        ("limit"@, prop("integer"@, "Maximum number of results (default: 10)"@)),
        ("observation_type"@, prop("string"@, "Filter by type: success, failure, pattern, anomaly"@)),
    ]
}

/// The properties of `evaluate_hypothesis`'s input.
pub open spec fn evaluate_hypothesis_properties() -> Seq<(Seq<char>, JsonSpec)> {
    seq![
        ("hypothesis_id"@, prop("string"@, "ID of the hypothesis to evaluate"@)),
    ]
}

/// The properties of `get_knowledge`'s input.
pub open spec fn get_knowledge_properties() -> Seq<(Seq<char>, JsonSpec)> {
    seq![
        ("domain"@, prop("string"@, "Filter by domain/category"@)),
        ("limit"@, prop("integer"@, "Maximum number of results (default: 10)"@)),
    ]
}

/// The properties of `extract_knowledge`'s input.
pub open spec fn extract_knowledge_properties() -> Seq<(Seq<char>, JsonSpec)> {
    seq![
        ("hypothesis_id"@, prop("string"@, "ID of the supported hypothesis"@)),
        ("knowledge_content"@, prop("string"@, "The knowledge content to extract from this hypothesis"@)),
    ]
}

/// Name, description and input schema of each hypothesis tool.
pub open spec fn hypothesis_tool_table() -> Seq<(Seq<char>, Seq<char>, JsonSpec)> {
    seq![
        ("record_observation"@, "Record an observation. Observations are the starting point for learning - record successes, failures, patterns, or anomalies."@, object_with(record_observation_properties(), Some(seq!["content"@, "observation_type"@]))),
        ("create_hypothesis"@, "Create a testable hypothesis from observations. A hypothesis is a statement that can be tested with evidence."@, object_with(create_hypothesis_properties(), Some(seq!["statement"@, "domain"@]))),
        ("add_evidence"@, "Add evidence to a hypothesis. Evidence can support or contradict the hypothesis."@, object_with(add_evidence_properties(), Some(seq!["hypothesis_id"@, "content"@, "direction"@]))),
        ("get_hypothesis"@, "Get details of a specific hypothesis including all its evidence."@, object_with(get_hypothesis_properties(), Some(seq!["hypothesis_id"@]))),
        ("get_observation"@, "Get a specific observation by its ID. Useful for examining individual observations that contributed to hypotheses."@, object_with(get_observation_properties(), Some(seq!["observation_id"@]))),
        ("list_hypotheses"@, "List all hypotheses with optional filters."@, object_with(list_hypotheses_properties(), None)),
        ("list_observations"@, "List recorded observations."@, object_with(list_observations_properties(), None)),
        ("evaluate_hypothesis"@, "Evaluate a hypothesis based on accumulated evidence. Determines if hypothesis is supported, refuted, or needs more testing."@, object_with(evaluate_hypothesis_properties(), Some(seq!["hypothesis_id"@]))),
        ("get_knowledge"@, "Get learned knowledge that can inform future decisions."@, object_with(get_knowledge_properties(), None)),
        ("extract_knowledge"@, "Extract supported hypothesis as reusable knowledge. Only supported hypotheses can be extracted."@, object_with(extract_knowledge_properties(), Some(seq!["hypothesis_id"@, "knowledge_content"@]))),
    ]
}

fn record_observation_schema() -> (r: JsonValue)
    ensures
        r@ == object_with(record_observation_properties(), Some(seq!["content"@, "observation_type"@])),
{
    let mut ps: Vec<(String, JsonValue)> = Vec::new();
    ps.push(member("content", prop_value("string", "What was observed")));
    ps.push(member("context", prop_value("string", "Context or circumstances of the observation")));
    ps.push(member("observation_type", prop_value("string", "Type: success, failure, pattern, anomaly")));
    assert(member_views(ps@) =~= record_observation_properties());
    let mut req: Vec<String> = Vec::new();
    req.push(owned("content"));
    req.push(owned("observation_type"));
    assert(texts(req@) =~= seq!["content"@, "observation_type"@]);
    object_value(ps, Some(req))
}

fn create_hypothesis_schema() -> (r: JsonValue)
    ensures
        r@ == object_with(create_hypothesis_properties(), Some(seq!["statement"@, "domain"@])),
{
    let mut ps: Vec<(String, JsonValue)> = Vec::new();
    ps.push(member("domain", prop_value("string", "Domain/category (e.g., workflow, tool, pattern)")));
    ps.push(member("source_observations", list_prop_value("string", "IDs of observations that led to this hypothesis")));
    ps.push(member("statement", prop_value("string", "The hypothesis statement (e.g., 'Using X approach improves Y outcome')")));
    assert(member_views(ps@) =~= create_hypothesis_properties());
    let mut req: Vec<String> = Vec::new();
    req.push(owned("statement"));
    req.push(owned("domain"));
    assert(texts(req@) =~= seq!["statement"@, "domain"@]);
    object_value(ps, Some(req))
}

fn add_evidence_schema() -> (r: JsonValue)
    ensures
        r@ == object_with(add_evidence_properties(), Some(seq!["hypothesis_id"@, "content"@, "direction"@])),
{
    let mut ps: Vec<(String, JsonValue)> = Vec::new();
    ps.push(member("content", prop_value("string", "Description of the evidence")));
    ps.push(member("direction", prop_value("string", "support or contradict")));
    ps.push(member("evidence_type", prop_value("string", "Type: success, failure, correlation, anomaly")));
    ps.push(member("hypothesis_id", prop_value("string", "ID of the hypothesis")));
    ps.push(member("strength", prop_value("number", "Strength of evidence 0.0-1.0")));
    assert(member_views(ps@) =~= add_evidence_properties());
    let mut req: Vec<String> = Vec::new();
    req.push(owned("hypothesis_id"));
    req.push(owned("content"));
    req.push(owned("direction"));
    assert(texts(req@) =~= seq!["hypothesis_id"@, "content"@, "direction"@]);
    object_value(ps, Some(req))
}

fn get_hypothesis_schema() -> (r: JsonValue)
    ensures
        r@ == object_with(get_hypothesis_properties(), Some(seq!["hypothesis_id"@])),
{
    let mut ps: Vec<(String, JsonValue)> = Vec::new();
    ps.push(member("hypothesis_id", prop_value("string", "ID of the hypothesis")));
    assert(member_views(ps@) =~= get_hypothesis_properties());
    let mut req: Vec<String> = Vec::new();
    req.push(owned("hypothesis_id"));
    assert(texts(req@) =~= seq!["hypothesis_id"@]);
    object_value(ps, Some(req))
}

fn get_observation_schema() -> (r: JsonValue)
    ensures
        r@ == object_with(get_observation_properties(), Some(seq!["observation_id"@])),
{
    let mut ps: Vec<(String, JsonValue)> = Vec::new();
    ps.push(member("observation_id", prop_value("string", "ID of the observation to retrieve")));
    assert(member_views(ps@) =~= get_observation_properties());
    let mut req: Vec<String> = Vec::new();
    req.push(owned("observation_id"));
    assert(texts(req@) =~= seq!["observation_id"@]);
    object_value(ps, Some(req))
}

fn list_hypotheses_schema() -> (r: JsonValue)
    ensures
        r@ == object_with(list_hypotheses_properties(), None),
{
    let mut ps: Vec<(String, JsonValue)> = Vec::new();
    ps.push(member("domain", prop_value("string", "Filter by domain/category")));
    ps.push(member("limit", prop_value("integer", "Maximum number of results (default: 10)")));
    ps.push(member("status", prop_value("string", "Filter by status: testing, supported, refuted, inconclusive, superseded")));
    assert(member_views(ps@) =~= list_hypotheses_properties());
    object_value(ps, None)
}

fn list_observations_schema() -> (r: JsonValue)
    ensures
        r@ == object_with(list_observations_properties(), None),
{
    let mut ps: Vec<(String, JsonValue)> = Vec::new();
    ps.push(member("limit", prop_value("integer", "Maximum number of results (default: 10)")));
    ps.push(member("observation_type", prop_value("string", "Filter by type: success, failure, pattern, anomaly")));
    assert(member_views(ps@) =~= list_observations_properties());
    object_value(ps, None)
}

fn evaluate_hypothesis_schema() -> (r: JsonValue)
    ensures
        r@ == object_with(evaluate_hypothesis_properties(), Some(seq!["hypothesis_id"@])),
{
    let mut ps: Vec<(String, JsonValue)> = Vec::new();
    ps.push(member("hypothesis_id", prop_value("string", "ID of the hypothesis to evaluate")));
    assert(member_views(ps@) =~= evaluate_hypothesis_properties());
    let mut req: Vec<String> = Vec::new();
    req.push(owned("hypothesis_id"));
    assert(texts(req@) =~= seq!["hypothesis_id"@]);
    object_value(ps, Some(req))
}

fn get_knowledge_schema() -> (r: JsonValue)
    ensures
        r@ == object_with(get_knowledge_properties(), None),
{
    let mut ps: Vec<(String, JsonValue)> = Vec::new();
    ps.push(member("domain", prop_value("string", "Filter by domain/category")));
    ps.push(member("limit", prop_value("integer", "Maximum number of results (default: 10)")));
    assert(member_views(ps@) =~= get_knowledge_properties());
    object_value(ps, None)
}

fn extract_knowledge_schema() -> (r: JsonValue)
    ensures
        r@ == object_with(extract_knowledge_properties(), Some(seq!["hypothesis_id"@, "knowledge_content"@])),
{
    let mut ps: Vec<(String, JsonValue)> = Vec::new();
    ps.push(member("hypothesis_id", prop_value("string", "ID of the supported hypothesis")));
    ps.push(member("knowledge_content", prop_value("string", "The knowledge content to extract from this hypothesis")));
    assert(member_views(ps@) =~= extract_knowledge_properties());
    let mut req: Vec<String> = Vec::new();
    req.push(owned("hypothesis_id"));
    req.push(owned("knowledge_content"));
    assert(texts(req@) =~= seq!["hypothesis_id"@, "knowledge_content"@]);
    object_value(ps, Some(req))
}

/// The hypothesis tools: name, description and input schema of each.
pub fn all() -> (r: Vec<McpTool>)
    ensures
        tool_views(r@) == hypothesis_tool_table(),
{
    let mut v: Vec<McpTool> = Vec::new();
    v.push(ToolDefinition::new("record_observation", "Record an observation. Observations are the starting point for learning - record successes, failures, patterns, or anomalies.", record_observation_schema()));
    v.push(ToolDefinition::new("create_hypothesis", "Create a testable hypothesis from observations. A hypothesis is a statement that can be tested with evidence.", create_hypothesis_schema()));
    v.push(ToolDefinition::new("add_evidence", "Add evidence to a hypothesis. Evidence can support or contradict the hypothesis.", add_evidence_schema()));
    v.push(ToolDefinition::new("get_hypothesis", "Get details of a specific hypothesis including all its evidence.", get_hypothesis_schema()));
    v.push(ToolDefinition::new("get_observation", "Get a specific observation by its ID. Useful for examining individual observations that contributed to hypotheses.", get_observation_schema()));
    v.push(ToolDefinition::new("list_hypotheses", "List all hypotheses with optional filters.", list_hypotheses_schema()));
    v.push(ToolDefinition::new("list_observations", "List recorded observations.", list_observations_schema()));
    v.push(ToolDefinition::new("evaluate_hypothesis", "Evaluate a hypothesis based on accumulated evidence. Determines if hypothesis is supported, refuted, or needs more testing.", evaluate_hypothesis_schema()));
    v.push(ToolDefinition::new("get_knowledge", "Get learned knowledge that can inform future decisions.", get_knowledge_schema()));
    v.push(ToolDefinition::new("extract_knowledge", "Extract supported hypothesis as reusable knowledge. Only supported hypotheses can be extracted.", extract_knowledge_schema()));
    assert(tool_views(v@) =~= hypothesis_tool_table());
    v
}

} // verus!
