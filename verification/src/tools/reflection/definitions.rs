//! Definitions of the reflection tools: names, descriptions and input schemas.

use vstd::prelude::*;
use crate::json::{JsonSpec, JsonValue, member_views, json_views};
use crate::skills::registry::texts;
use crate::text::owned;
use crate::tools::McpTool;
use crate::tools::plugins::{json_object, json_string, member, tool_views, ToolDefinition};
use crate::tools::schema::{json_array, json_number, list_prop, list_prop_value, object_value, object_with, prop, prop_value};

verus! {

/// The properties of `get_insights`'s input.
pub open spec fn get_insights_properties() -> Seq<(Seq<char>, JsonSpec)> {
    seq![
        ("limit"@, JsonSpec::Object(seq![
            ("default"@, JsonSpec::Number("10"@, Some(10i64), "10"@)),
            ("description"@, JsonSpec::Str("Maximum number of insights to return"@)),
            ("type"@, JsonSpec::Str("number"@)),
        ])),
        ("min_confidence"@, JsonSpec::Object(seq![
            ("description"@, JsonSpec::Str("Minimum confidence threshold (0.0 - 1.0)"@)),
            ("maximum"@, JsonSpec::Number("1.0"@, None, "1"@)),
            ("minimum"@, JsonSpec::Number("0.0"@, None, "0"@)),
            ("type"@, JsonSpec::Str("number"@)),
        ])),
    ]
}

/// The properties of `create_reflection`'s input.
pub open spec fn create_reflection_properties() -> Seq<(Seq<char>, JsonSpec)> {
    seq![
        ("description"@, prop("string"@, "Detailed description and reasoning"@)),
        ("experience_ids"@, list_prop("string"@, "IDs of experiences to reflect on"@)),
        ("reflection_type"@, JsonSpec::Object(seq![
            ("description"@, JsonSpec::Str("Type of reflection"@)),
            ("enum"@, JsonSpec::Array(seq![JsonSpec::Str("success"@), JsonSpec::Str("failure"@), JsonSpec::Str("improvement"@), JsonSpec::Str("pattern"@), JsonSpec::Str("anomaly"@), JsonSpec::Str("strategy"@), JsonSpec::Str("general"@)])),
            ("type"@, JsonSpec::Str("string"@)),
        ])),
        ("title"@, prop("string"@, "Title for the reflection"@)),
    ]
}

/// The properties of `analyze_patterns`'s input.
pub open spec fn analyze_patterns_properties() -> Seq<(Seq<char>, JsonSpec)> {
    seq![
        ("experience_ids"@, list_prop("string"@, "Experience IDs to analyze"@)),
    ]
}

/// The properties of `get_patterns`'s input.
pub open spec fn get_patterns_properties() -> Seq<(Seq<char>, JsonSpec)> {
    seq![
        ("min_confidence"@, JsonSpec::Object(seq![
            ("description"@, JsonSpec::Str("Minimum confidence threshold"@)),
            ("maximum"@, JsonSpec::Number("1.0"@, None, "1"@)),
            ("minimum"@, JsonSpec::Number("0.0"@, None, "0"@)),
            ("type"@, JsonSpec::Str("number"@)),
        ])),
        ("pattern_type"@, prop("string"@, "Filter by pattern type"@)),
    ]
}

/// Name, description and input schema of each reflection tool.
pub open spec fn reflection_tool_table() -> Seq<(Seq<char>, Seq<char>, JsonSpec)> {
    seq![
        ("get_insights"@, "Get actionable insights from reflections"@, object_with(get_insights_properties(), None)),
        ("create_reflection"@, "Create a new reflection from experiences"@, object_with(create_reflection_properties(), Some(seq!["title"@, "description"@, "reflection_type"@]))),
        ("analyze_patterns"@, "Analyze experiences to detect patterns"@, object_with(analyze_patterns_properties(), Some(seq!["experience_ids"@]))),
        ("get_patterns"@, "Get detected patterns"@, object_with(get_patterns_properties(), None)),
    ]
}

fn get_insights_schema() -> (r: JsonValue)
    ensures
        r@ == object_with(get_insights_properties(), None),
{
    let mut ps: Vec<(String, JsonValue)> = Vec::new();
    ps.push(member("limit", {
        let mut ms1: Vec<(String, JsonValue)> = Vec::new();
        ms1.push(member("default", json_number("10", Some(10), "10")));
        ms1.push(member("description", json_string("Maximum number of insights to return")));
        ms1.push(member("type", json_string("number")));
        assert(member_views(ms1@) =~= seq![("default"@, JsonSpec::Number("10"@, Some(10i64), "10"@)), ("description"@, JsonSpec::Str("Maximum number of insights to return"@)), ("type"@, JsonSpec::Str("number"@))]);
        json_object(ms1)
    }));
    ps.push(member("min_confidence", {
        let mut ms2: Vec<(String, JsonValue)> = Vec::new();
        ms2.push(member("description", json_string("Minimum confidence threshold (0.0 - 1.0)")));
        ms2.push(member("maximum", json_number("1.0", None, "1")));
        ms2.push(member("minimum", json_number("0.0", None, "0")));
        ms2.push(member("type", json_string("number")));
        assert(member_views(ms2@) =~= seq![("description"@, JsonSpec::Str("Minimum confidence threshold (0.0 - 1.0)"@)), ("maximum"@, JsonSpec::Number("1.0"@, None, "1"@)), ("minimum"@, JsonSpec::Number("0.0"@, None, "0"@)), ("type"@, JsonSpec::Str("number"@))]);
        json_object(ms2)
    }));
    assert(member_views(ps@) =~= get_insights_properties());
    object_value(ps, None)
}

fn create_reflection_schema() -> (r: JsonValue)
    ensures
        r@ == object_with(create_reflection_properties(), Some(seq!["title"@, "description"@, "reflection_type"@])),
{
    let mut ps: Vec<(String, JsonValue)> = Vec::new();
    ps.push(member("description", prop_value("string", "Detailed description and reasoning")));
    ps.push(member("experience_ids", list_prop_value("string", "IDs of experiences to reflect on")));
    ps.push(member("reflection_type", {
        let mut ms1: Vec<(String, JsonValue)> = Vec::new();
        ms1.push(member("description", json_string("Type of reflection")));
        ms1.push(member("enum", {
            let mut items2: Vec<JsonValue> = Vec::new();
            items2.push(json_string("success"));
            items2.push(json_string("failure"));
            items2.push(json_string("improvement"));
            items2.push(json_string("pattern"));
            items2.push(json_string("anomaly"));
            items2.push(json_string("strategy"));
            items2.push(json_string("general"));
            assert(json_views(items2@) =~= seq![JsonSpec::Str("success"@), JsonSpec::Str("failure"@), JsonSpec::Str("improvement"@), JsonSpec::Str("pattern"@), JsonSpec::Str("anomaly"@), JsonSpec::Str("strategy"@), JsonSpec::Str("general"@)]);
            json_array(items2)
        }));
        ms1.push(member("type", json_string("string")));
        assert(member_views(ms1@) =~= seq![("description"@, JsonSpec::Str("Type of reflection"@)), ("enum"@, JsonSpec::Array(seq![JsonSpec::Str("success"@), JsonSpec::Str("failure"@), JsonSpec::Str("improvement"@), JsonSpec::Str("pattern"@), JsonSpec::Str("anomaly"@), JsonSpec::Str("strategy"@), JsonSpec::Str("general"@)])), ("type"@, JsonSpec::Str("string"@))]);
        json_object(ms1)
    }));
    ps.push(member("title", prop_value("string", "Title for the reflection")));
    assert(member_views(ps@) =~= create_reflection_properties());
    let mut req: Vec<String> = Vec::new();
    req.push(owned("title"));
    req.push(owned("description"));
    req.push(owned("reflection_type"));
    assert(texts(req@) =~= seq!["title"@, "description"@, "reflection_type"@]);
    object_value(ps, Some(req))
}

fn analyze_patterns_schema() -> (r: JsonValue)
    ensures
        r@ == object_with(analyze_patterns_properties(), Some(seq!["experience_ids"@])),
{
    let mut ps: Vec<(String, JsonValue)> = Vec::new();
    ps.push(member("experience_ids", list_prop_value("string", "Experience IDs to analyze")));
    assert(member_views(ps@) =~= analyze_patterns_properties());
    let mut req: Vec<String> = Vec::new();
    req.push(owned("experience_ids"));
    assert(texts(req@) =~= seq!["experience_ids"@]);
    object_value(ps, Some(req))
}

fn get_patterns_schema() -> (r: JsonValue)
    ensures
        r@ == object_with(get_patterns_properties(), None),
{
    let mut ps: Vec<(String, JsonValue)> = Vec::new();
    ps.push(member("min_confidence", {
        let mut ms1: Vec<(String, JsonValue)> = Vec::new();
        ms1.push(member("description", json_string("Minimum confidence threshold")));
        ms1.push(member("maximum", json_number("1.0", None, "1")));
        ms1.push(member("minimum", json_number("0.0", None, "0")));
        ms1.push(member("type", json_string("number")));
        assert(member_views(ms1@) =~= seq![("description"@, JsonSpec::Str("Minimum confidence threshold"@)), ("maximum"@, JsonSpec::Number("1.0"@, None, "1"@)), ("minimum"@, JsonSpec::Number("0.0"@, None, "0"@)), ("type"@, JsonSpec::Str("number"@))]);
        json_object(ms1)
    }));
    ps.push(member("pattern_type", prop_value("string", "Filter by pattern type")));
    assert(member_views(ps@) =~= get_patterns_properties());
    object_value(ps, None)
}

/// The reflection tools: name, description and input schema of each.
pub fn all() -> (r: Vec<McpTool>)
    ensures
        tool_views(r@) == reflection_tool_table(),
{
    let mut v: Vec<McpTool> = Vec::new();
    v.push(ToolDefinition::new("get_insights", "Get actionable insights from reflections", get_insights_schema()));
    v.push(ToolDefinition::new("create_reflection", "Create a new reflection from experiences", create_reflection_schema()));
    v.push(ToolDefinition::new("analyze_patterns", "Analyze experiences to detect patterns", analyze_patterns_schema()));
    v.push(ToolDefinition::new("get_patterns", "Get detected patterns", get_patterns_schema()));
    assert(tool_views(v@) =~= reflection_tool_table());
    v
}

} // verus!
