//! Definitions of the exploration tools: names, descriptions and input schemas.

use vstd::prelude::*;
use crate::json::{JsonSpec, JsonValue, member_views, json_views};
use crate::skills::registry::texts;
use crate::text::owned;
use crate::tools::McpTool;
use crate::tools::plugins::{json_object, json_string, member, tool_views, ToolDefinition};
use crate::tools::schema::{json_array, object_value, object_with, prop, prop_value};

verus! {

/// The properties of `start_exploration`'s input.
pub open spec fn start_exploration_properties() -> Seq<(Seq<char>, JsonSpec)> {
    seq![
        ("purpose"@, prop("string"@, "Why this exploration is being conducted"@)),
        ("title"@, prop("string"@, "Human-readable title for this exploration"@)),
    ]
}

/// The properties of `pause_exploration`'s input.
pub open spec fn pause_exploration_properties() -> Seq<(Seq<char>, JsonSpec)> {
    seq![
        ("exploration_id"@, prop("string"@, "The exploration ID to pause"@)),
    ]
}

/// The properties of `resume_exploration`'s input.
pub open spec fn resume_exploration_properties() -> Seq<(Seq<char>, JsonSpec)> {
    seq![
        ("exploration_id"@, prop("string"@, "The exploration ID to resume"@)),
    ]
}

/// The properties of `get_exploration_status`'s input.
pub open spec fn get_exploration_status_properties() -> Seq<(Seq<char>, JsonSpec)> {
    seq![
        ("exploration_id"@, prop("string"@, "The exploration ID to check"@)),
    ]
}

/// The properties of `complete_exploration`'s input.
pub open spec fn complete_exploration_properties() -> Seq<(Seq<char>, JsonSpec)> {
    seq![
        ("exploration_id"@, prop("string"@, "The exploration ID to complete"@)),
        ("findings"@, JsonSpec::Object(seq![
            ("description"@, JsonSpec::Str("Findings from this exploration"@)),
            ("items"@, JsonSpec::Object(seq![
                ("properties"@, JsonSpec::Object(seq![
                    ("confidence"@, prop("number"@, "Confidence in this finding (0.0-1.0)"@)),
                    ("description"@, prop("string"@, "Description of what was discovered"@)),
                ])),
                ("required"@, JsonSpec::Array(seq![JsonSpec::Str("description"@)])),
                ("type"@, JsonSpec::Str("object"@)),
            ])),
            ("type"@, JsonSpec::Str("array"@)),
        ])),
    ]
}

/// The properties of `record_attempt`'s input.
pub open spec fn record_attempt_properties() -> Seq<(Seq<char>, JsonSpec)> {
    seq![
        ("action"@, prop("string"@, "What action was taken"@)),
        ("actual_result"@, prop("string"@, "What actually happened (optional)"@)),
        ("expected_result"@, prop("string"@, "What result was expected (optional)"@)),
        ("exploration_id"@, prop("string"@, "The exploration ID"@)),
    ]
}

/// The properties of `add_hypothesis`'s input.
pub open spec fn add_hypothesis_properties() -> Seq<(Seq<char>, JsonSpec)> {
    seq![
        ("exploration_id"@, prop("string"@, "The exploration ID"@)),
        ("initial_confidence"@, prop("number"@, "Initial confidence (0.0-1.0, default 0.5)"@)),
        ("statement"@, prop("string"@, "The hypothesis statement"@)),
    ]
}

/// The properties of `evaluate_exploration_hypothesis`'s input.
pub open spec fn evaluate_exploration_hypothesis_properties() -> Seq<(Seq<char>, JsonSpec)> {
    seq![
        ("exploration_id"@, prop("string"@, "The exploration ID"@)),
        ("hypothesis_id"@, prop("string"@, "The hypothesis ID to evaluate"@)),
        ("result"@, prop("string"@, "Result: supported, partially_supported, rejected, unknown"@)),
    ]
}

/// The properties of `promote_finding`'s input.
pub open spec fn promote_finding_properties() -> Seq<(Seq<char>, JsonSpec)> {
    seq![
        ("exploration_id"@, prop("string"@, "The exploration ID"@)),
        ("finding_id"@, prop("string"@, "The finding ID to promote"@)),
    ]
}

/// The properties of `abandon_exploration`'s input.
pub open spec fn abandon_exploration_properties() -> Seq<(Seq<char>, JsonSpec)> {
    seq![
        ("exploration_id"@, prop("string"@, "The exploration ID to abandon"@)),
    ]
}

/// Name, description and input schema of each exploration tool.
pub open spec fn exploration_tool_table() -> Seq<(Seq<char>, Seq<char>, JsonSpec)> {
    seq![
        ("start_exploration"@, "Start a new exploration session. Explorations allow RoBoT to actively investigate topics and test hypotheses."@, object_with(start_exploration_properties(), Some(seq!["title"@, "purpose"@]))),
        ("pause_exploration"@, "Pause an active exploration. The exploration can be resumed later."@, object_with(pause_exploration_properties(), Some(seq!["exploration_id"@]))),
        ("resume_exploration"@, "Resume a paused exploration."@, object_with(resume_exploration_properties(), Some(seq!["exploration_id"@]))),
        ("get_exploration_status"@, "Get the current status of an exploration including hypotheses, attempts, and findings."@, object_with(get_exploration_status_properties(), Some(seq!["exploration_id"@]))),
        ("complete_exploration"@, "Mark an exploration as completed with findings."@, object_with(complete_exploration_properties(), Some(seq!["exploration_id"@, "findings"@]))),
        ("record_attempt"@, "Record an attempt made during exploration."@, object_with(record_attempt_properties(), Some(seq!["exploration_id"@, "action"@]))),
        ("add_hypothesis"@, "Add a hypothesis to an exploration for testing."@, object_with(add_hypothesis_properties(), Some(seq!["exploration_id"@, "statement"@]))),
        ("evaluate_exploration_hypothesis"@, "Evaluate a hypothesis with a result."@, object_with(evaluate_exploration_hypothesis_properties(), Some(seq!["exploration_id"@, "hypothesis_id"@, "result"@]))),
        ("promote_finding"@, "Promote a finding to reusable knowledge."@, object_with(promote_finding_properties(), Some(seq!["exploration_id"@, "finding_id"@]))),
        ("abandon_exploration"@, "Abandon an exploration without findings."@, object_with(abandon_exploration_properties(), Some(seq!["exploration_id"@]))),
    ]
}

fn start_exploration_schema() -> (r: JsonValue)
    ensures
        r@ == object_with(start_exploration_properties(), Some(seq!["title"@, "purpose"@])),
{
    let mut ps: Vec<(String, JsonValue)> = Vec::new();
    ps.push(member("purpose", prop_value("string", "Why this exploration is being conducted")));
    ps.push(member("title", prop_value("string", "Human-readable title for this exploration")));
    assert(member_views(ps@) =~= start_exploration_properties());
    let mut req: Vec<String> = Vec::new();
    req.push(owned("title"));
    req.push(owned("purpose"));
    assert(texts(req@) =~= seq!["title"@, "purpose"@]);
    object_value(ps, Some(req))
}

fn pause_exploration_schema() -> (r: JsonValue)
    ensures
        r@ == object_with(pause_exploration_properties(), Some(seq!["exploration_id"@])),
{
    let mut ps: Vec<(String, JsonValue)> = Vec::new();
    ps.push(member("exploration_id", prop_value("string", "The exploration ID to pause")));
    assert(member_views(ps@) =~= pause_exploration_properties());
    let mut req: Vec<String> = Vec::new();
    req.push(owned("exploration_id"));
    assert(texts(req@) =~= seq!["exploration_id"@]);
    object_value(ps, Some(req))
}

fn resume_exploration_schema() -> (r: JsonValue)
    ensures
        r@ == object_with(resume_exploration_properties(), Some(seq!["exploration_id"@])),
{
    let mut ps: Vec<(String, JsonValue)> = Vec::new();
    ps.push(member("exploration_id", prop_value("string", "The exploration ID to resume")));
    assert(member_views(ps@) =~= resume_exploration_properties());
    let mut req: Vec<String> = Vec::new();
    req.push(owned("exploration_id"));
    assert(texts(req@) =~= seq!["exploration_id"@]);
    object_value(ps, Some(req))
}

fn get_exploration_status_schema() -> (r: JsonValue)
    ensures
        r@ == object_with(get_exploration_status_properties(), Some(seq!["exploration_id"@])),
{
    let mut ps: Vec<(String, JsonValue)> = Vec::new();
    ps.push(member("exploration_id", prop_value("string", "The exploration ID to check")));
    assert(member_views(ps@) =~= get_exploration_status_properties());
    let mut req: Vec<String> = Vec::new();
    req.push(owned("exploration_id"));
    assert(texts(req@) =~= seq!["exploration_id"@]);
    object_value(ps, Some(req))
}

fn complete_exploration_schema() -> (r: JsonValue)
    ensures
        r@ == object_with(complete_exploration_properties(), Some(seq!["exploration_id"@, "findings"@])),
{
    let mut ps: Vec<(String, JsonValue)> = Vec::new();
    ps.push(member("exploration_id", prop_value("string", "The exploration ID to complete")));
    ps.push(member("findings", {
        let mut ms1: Vec<(String, JsonValue)> = Vec::new();
        ms1.push(member("description", json_string("Findings from this exploration")));
        ms1.push(member("items", {
            let mut ms2: Vec<(String, JsonValue)> = Vec::new();
            ms2.push(member("properties", {
                let mut ms3: Vec<(String, JsonValue)> = Vec::new();
                ms3.push(member("confidence", prop_value("number", "Confidence in this finding (0.0-1.0)")));
                ms3.push(member("description", prop_value("string", "Description of what was discovered")));
                assert(member_views(ms3@) =~= seq![("confidence"@, prop("number"@, "Confidence in this finding (0.0-1.0)"@)), ("description"@, prop("string"@, "Description of what was discovered"@))]);
                json_object(ms3)
            }));
            ms2.push(member("required", {
                let mut items4: Vec<JsonValue> = Vec::new();
                items4.push(json_string("description"));
                assert(json_views(items4@) =~= seq![JsonSpec::Str("description"@)]);
                json_array(items4)
            }));
            ms2.push(member("type", json_string("object")));
            assert(member_views(ms2@) =~= seq![("properties"@, JsonSpec::Object(seq![
                    ("confidence"@, prop("number"@, "Confidence in this finding (0.0-1.0)"@)),
                    ("description"@, prop("string"@, "Description of what was discovered"@)),
                ])), ("required"@, JsonSpec::Array(seq![JsonSpec::Str("description"@)])), ("type"@, JsonSpec::Str("object"@))]);
            json_object(ms2)
        }));
        ms1.push(member("type", json_string("array")));
        assert(member_views(ms1@) =~= seq![("description"@, JsonSpec::Str("Findings from this exploration"@)), ("items"@, JsonSpec::Object(seq![
                ("properties"@, JsonSpec::Object(seq![
                    ("confidence"@, prop("number"@, "Confidence in this finding (0.0-1.0)"@)),
                    ("description"@, prop("string"@, "Description of what was discovered"@)),
                ])),
                ("required"@, JsonSpec::Array(seq![JsonSpec::Str("description"@)])),
                ("type"@, JsonSpec::Str("object"@)),
            ])), ("type"@, JsonSpec::Str("array"@))]);
        json_object(ms1)
    }));
    assert(member_views(ps@) =~= complete_exploration_properties());
    let mut req: Vec<String> = Vec::new();
    req.push(owned("exploration_id"));
    req.push(owned("findings"));
    assert(texts(req@) =~= seq!["exploration_id"@, "findings"@]);
    object_value(ps, Some(req))
}

fn record_attempt_schema() -> (r: JsonValue)
    ensures
        r@ == object_with(record_attempt_properties(), Some(seq!["exploration_id"@, "action"@])),
{
    let mut ps: Vec<(String, JsonValue)> = Vec::new();
    ps.push(member("action", prop_value("string", "What action was taken")));
    ps.push(member("actual_result", prop_value("string", "What actually happened (optional)")));
    ps.push(member("expected_result", prop_value("string", "What result was expected (optional)")));
    ps.push(member("exploration_id", prop_value("string", "The exploration ID")));
    assert(member_views(ps@) =~= record_attempt_properties());
    let mut req: Vec<String> = Vec::new();
    req.push(owned("exploration_id"));
    req.push(owned("action"));
    assert(texts(req@) =~= seq!["exploration_id"@, "action"@]);
    object_value(ps, Some(req))
}

fn add_hypothesis_schema() -> (r: JsonValue)
    ensures
        r@ == object_with(add_hypothesis_properties(), Some(seq!["exploration_id"@, "statement"@])),
{
    let mut ps: Vec<(String, JsonValue)> = Vec::new();
    ps.push(member("exploration_id", prop_value("string", "The exploration ID")));
    ps.push(member("initial_confidence", prop_value("number", "Initial confidence (0.0-1.0, default 0.5)")));
    ps.push(member("statement", prop_value("string", "The hypothesis statement")));
    assert(member_views(ps@) =~= add_hypothesis_properties());
    let mut req: Vec<String> = Vec::new();
    req.push(owned("exploration_id"));
    req.push(owned("statement"));
    assert(texts(req@) =~= seq!["exploration_id"@, "statement"@]);
    object_value(ps, Some(req))
}

fn evaluate_exploration_hypothesis_schema() -> (r: JsonValue)
    ensures
        r@ == object_with(evaluate_exploration_hypothesis_properties(), Some(seq!["exploration_id"@, "hypothesis_id"@, "result"@])),
{
    let mut ps: Vec<(String, JsonValue)> = Vec::new();
    ps.push(member("exploration_id", prop_value("string", "The exploration ID")));
    ps.push(member("hypothesis_id", prop_value("string", "The hypothesis ID to evaluate")));
    ps.push(member("result", prop_value("string", "Result: supported, partially_supported, rejected, unknown")));
    assert(member_views(ps@) =~= evaluate_exploration_hypothesis_properties());
    let mut req: Vec<String> = Vec::new();
    req.push(owned("exploration_id"));
    req.push(owned("hypothesis_id"));
    req.push(owned("result"));
    assert(texts(req@) =~= seq!["exploration_id"@, "hypothesis_id"@, "result"@]);
    object_value(ps, Some(req))
}

fn promote_finding_schema() -> (r: JsonValue)
    ensures
        r@ == object_with(promote_finding_properties(), Some(seq!["exploration_id"@, "finding_id"@])),
{
    let mut ps: Vec<(String, JsonValue)> = Vec::new();
    ps.push(member("exploration_id", prop_value("string", "The exploration ID")));
    ps.push(member("finding_id", prop_value("string", "The finding ID to promote")));
    assert(member_views(ps@) =~= promote_finding_properties());
    let mut req: Vec<String> = Vec::new();
    req.push(owned("exploration_id"));
    req.push(owned("finding_id"));
    assert(texts(req@) =~= seq!["exploration_id"@, "finding_id"@]);
    object_value(ps, Some(req))
}

fn abandon_exploration_schema() -> (r: JsonValue)
    ensures
        r@ == object_with(abandon_exploration_properties(), Some(seq!["exploration_id"@])),
{
    let mut ps: Vec<(String, JsonValue)> = Vec::new();
    ps.push(member("exploration_id", prop_value("string", "The exploration ID to abandon")));
    assert(member_views(ps@) =~= abandon_exploration_properties());
    let mut req: Vec<String> = Vec::new();
    req.push(owned("exploration_id"));
    assert(texts(req@) =~= seq!["exploration_id"@]);
    object_value(ps, Some(req))
}

/// The exploration tools: name, description and input schema of each.
pub fn all() -> (r: Vec<McpTool>)
    ensures
        tool_views(r@) == exploration_tool_table(),
{
    let mut v: Vec<McpTool> = Vec::new();
    v.push(ToolDefinition::new("start_exploration", "Start a new exploration session. Explorations allow RoBoT to actively investigate topics and test hypotheses.", start_exploration_schema()));
    v.push(ToolDefinition::new("pause_exploration", "Pause an active exploration. The exploration can be resumed later.", pause_exploration_schema()));
    v.push(ToolDefinition::new("resume_exploration", "Resume a paused exploration.", resume_exploration_schema()));
    v.push(ToolDefinition::new("get_exploration_status", "Get the current status of an exploration including hypotheses, attempts, and findings.", get_exploration_status_schema()));
    v.push(ToolDefinition::new("complete_exploration", "Mark an exploration as completed with findings.", complete_exploration_schema()));
    v.push(ToolDefinition::new("record_attempt", "Record an attempt made during exploration.", record_attempt_schema()));
    v.push(ToolDefinition::new("add_hypothesis", "Add a hypothesis to an exploration for testing.", add_hypothesis_schema()));
    v.push(ToolDefinition::new("evaluate_exploration_hypothesis", "Evaluate a hypothesis with a result.", evaluate_exploration_hypothesis_schema()));
    v.push(ToolDefinition::new("promote_finding", "Promote a finding to reusable knowledge.", promote_finding_schema()));
    v.push(ToolDefinition::new("abandon_exploration", "Abandon an exploration without findings.", abandon_exploration_schema()));
    assert(tool_views(v@) =~= exploration_tool_table());
    v
}

} // verus!
