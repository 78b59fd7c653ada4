//! Definitions of the skill tools: names, descriptions and input schemas.

use vstd::prelude::*;
use crate::json::{JsonSpec, JsonValue, member_views, json_views};
use crate::skills::registry::texts;
use crate::text::owned;
use crate::tools::McpTool;
use crate::tools::plugins::{json_object, json_string, member, tool_views, ToolDefinition};
use crate::tools::schema::{json_array, list_prop, list_prop_value, object_value, object_with, prop, prop_value};

verus! {

/// The properties of `register_skill`'s input.
pub open spec fn register_skill_properties() -> Seq<(Seq<char>, JsonSpec)> {
    seq![
        ("author"@, prop("string"@, "Author of the skill"@)),
        ("category"@, JsonSpec::Object(seq![
            ("description"@, JsonSpec::Str("Category: file_operation, code_analysis, search, memory, learning, planning, communication, web, database, system, custom"@)),
            ("enum"@, JsonSpec::Array(seq![JsonSpec::Str("file_operation"@), JsonSpec::Str("code_analysis"@), JsonSpec::Str("search"@), JsonSpec::Str("memory"@), JsonSpec::Str("learning"@), JsonSpec::Str("planning"@), JsonSpec::Str("communication"@), JsonSpec::Str("web"@), JsonSpec::Str("database"@), JsonSpec::Str("system"@), JsonSpec::Str("custom"@)])),
            ("type"@, JsonSpec::Str("string"@)),
        ])),
        ("description"@, prop("string"@, "Description of what the skill does"@)),
        ("examples"@, list_prop("string"@, "Usage examples"@)),
        ("name"@, prop("string"@, "Unique name for the skill"@)),
        ("tags"@, list_prop("string"@, "Tags for categorization"@)),
        ("version"@, prop("string"@, "Skill version (default: 1.0.0)"@)),
    ]
}

/// The properties of `discover_skill`'s input.
pub open spec fn discover_skill_properties() -> Seq<(Seq<char>, JsonSpec)> {
    seq![
        ("category"@, prop("string"@, "Skill category"@)),
        ("description"@, prop("string"@, "Description of the skill"@)),
        ("name"@, prop("string"@, "Name of the discovered skill"@)),
        ("source_experience_id"@, prop("string"@, "ID of the experience that led to this discovery"@)),
    ]
}

/// The properties of `get_skill`'s input.
pub open spec fn get_skill_properties() -> Seq<(Seq<char>, JsonSpec)> {
    seq![
        ("skill_id"@, prop("string"@, "ID of the skill to retrieve"@)),
    ]
}

/// The properties of `list_skills`'s input.
pub open spec fn list_skills_properties() -> Seq<(Seq<char>, JsonSpec)> {
    seq![
        ("category"@, prop("string"@, "Filter by category"@)),
        ("enabled_only"@, prop("boolean"@, "Only list enabled skills"@)),
        ("limit"@, prop("integer"@, "Maximum number to return"@)),
    ]
}

/// The properties of `update_skill_mastery`'s input.
pub open spec fn update_skill_mastery_properties() -> Seq<(Seq<char>, JsonSpec)> {
    seq![
        ("skill_id"@, prop("string"@, "ID of the skill"@)),
        ("success"@, prop("boolean"@, "Whether the skill execution was successful (default: true)"@)),
    ]
}

/// The properties of `get_skill_recommendations`'s input.
pub open spec fn get_skill_recommendations_properties() -> Seq<(Seq<char>, JsonSpec)> {
    seq![
        ("category"@, prop("string"@, "Filter by category"@)),
        ("limit"@, prop("integer"@, "Maximum recommendations to return (default: 5)"@)),
    ]
}

/// The properties of `execute_skill`'s input.
pub open spec fn execute_skill_properties() -> Seq<(Seq<char>, JsonSpec)> {
    seq![
        ("parameters"@, prop("object"@, "Key-value parameters for execution"@)),
        ("skill_id"@, prop("string"@, "ID of the skill to execute"@)),
        ("task"@, prop("string"@, "Task description for the skill"@)),
        ("time_limit_secs"@, prop("integer"@, "Maximum execution time in seconds"@)),
    ]
}

/// The properties of `get_skill_stats`'s input.
pub open spec fn get_skill_stats_properties() -> Seq<(Seq<char>, JsonSpec)> {
    Seq::empty()
}

/// The properties of `apply_skill_decay`'s input.
pub open spec fn apply_skill_decay_properties() -> Seq<(Seq<char>, JsonSpec)> {
    seq![
        ("decay_rate"@, prop("number"@, "Decay rate (default: 0.05)"@)),
    ]
}

/// The properties of `enable_disable_skill`'s input.
pub open spec fn enable_disable_skill_properties() -> Seq<(Seq<char>, JsonSpec)> {
    seq![
        ("enable"@, prop("boolean"@, "true to enable, false to disable"@)),
        ("skill_id"@, prop("string"@, "ID of the skill"@)),
    ]
}

/// The properties of `search_skills`'s input.
pub open spec fn search_skills_properties() -> Seq<(Seq<char>, JsonSpec)> {
    seq![
        ("category"@, prop("string"@, "Filter by category"@)),
        ("min_mastery"@, prop("number"@, "Minimum mastery level"@)),
        ("query"@, prop("string"@, "Search query"@)),
    ]
}

/// Name, description and input schema of each skills tool.
pub open spec fn skills_tool_table() -> Seq<(Seq<char>, Seq<char>, JsonSpec)> {
    seq![
        ("register_skill"@, "Register a new skill in the skill registry. Skills represent reusable capabilities."@, object_with(register_skill_properties(), Some(seq!["name"@, "description"@, "category"@]))),
        ("discover_skill"@, "Create a skill discovered from an experience. Per Architecture §15: Skills emerge from experience."@, object_with(discover_skill_properties(), Some(seq!["name"@, "description"@, "category"@, "source_experience_id"@]))),
        ("get_skill"@, "Get details of a specific skill including mastery level, usage statistics, and prerequisites."@, object_with(get_skill_properties(), Some(seq!["skill_id"@]))),
        ("list_skills"@, "List all registered skills, optionally filtered by category or enabled status."@, object_with(list_skills_properties(), None)),
        ("update_skill_mastery"@, "Update skill mastery based on execution outcome. Records success or failure for the skill."@, object_with(update_skill_mastery_properties(), Some(seq!["skill_id"@]))),
        ("get_skill_recommendations"@, "Get skill recommendations based on readiness and usage patterns. Per Architecture §15."@, object_with(get_skill_recommendations_properties(), None)),
        ("execute_skill"@, "Execute a skill with provided task and parameters. Per Architecture §15: Skill::execute(&context)."@, object_with(execute_skill_properties(), Some(seq!["skill_id"@]))),
        ("get_skill_stats"@, "Get comprehensive statistics about the skill registry including mastery distribution."@, object_with(get_skill_stats_properties(), None)),
        ("apply_skill_decay"@, "Apply mastery decay to unused skills. Per Architecture §15: Skills include decay."@, object_with(apply_skill_decay_properties(), None)),
        ("enable_disable_skill"@, "Enable or disable a skill. Disabled skills cannot be executed."@, object_with(enable_disable_skill_properties(), Some(seq!["skill_id"@]))),
        ("search_skills"@, "Search skills by query, category, or minimum mastery level."@, object_with(search_skills_properties(), Some(seq!["query"@]))),
    ]
}

fn register_skill_schema() -> (r: JsonValue)
    ensures
        r@ == object_with(register_skill_properties(), Some(seq!["name"@, "description"@, "category"@])),
{
    let mut ps: Vec<(String, JsonValue)> = Vec::new();
    ps.push(member("author", prop_value("string", "Author of the skill")));
    ps.push(member("category", {
        let mut ms1: Vec<(String, JsonValue)> = Vec::new();
        ms1.push(member("description", json_string("Category: file_operation, code_analysis, search, memory, learning, planning, communication, web, database, system, custom")));
        ms1.push(member("enum", {
            let mut items2: Vec<JsonValue> = Vec::new();
            items2.push(json_string("file_operation"));
            items2.push(json_string("code_analysis"));
            items2.push(json_string("search"));
            items2.push(json_string("memory"));
            items2.push(json_string("learning"));
            items2.push(json_string("planning"));
            items2.push(json_string("communication"));
            items2.push(json_string("web"));
            items2.push(json_string("database"));
            items2.push(json_string("system"));
            items2.push(json_string("custom"));
            assert(json_views(items2@) =~= seq![JsonSpec::Str("file_operation"@), JsonSpec::Str("code_analysis"@), JsonSpec::Str("search"@), JsonSpec::Str("memory"@), JsonSpec::Str("learning"@), JsonSpec::Str("planning"@), JsonSpec::Str("communication"@), JsonSpec::Str("web"@), JsonSpec::Str("database"@), JsonSpec::Str("system"@), JsonSpec::Str("custom"@)]);
            json_array(items2)
        }));
        ms1.push(member("type", json_string("string")));
        assert(member_views(ms1@) =~= seq![("description"@, JsonSpec::Str("Category: file_operation, code_analysis, search, memory, learning, planning, communication, web, database, system, custom"@)), ("enum"@, JsonSpec::Array(seq![JsonSpec::Str("file_operation"@), JsonSpec::Str("code_analysis"@), JsonSpec::Str("search"@), JsonSpec::Str("memory"@), JsonSpec::Str("learning"@), JsonSpec::Str("planning"@), JsonSpec::Str("communication"@), JsonSpec::Str("web"@), JsonSpec::Str("database"@), JsonSpec::Str("system"@), JsonSpec::Str("custom"@)])), ("type"@, JsonSpec::Str("string"@))]);
        json_object(ms1)
    }));
    ps.push(member("description", prop_value("string", "Description of what the skill does")));
    ps.push(member("examples", list_prop_value("string", "Usage examples")));
    ps.push(member("name", prop_value("string", "Unique name for the skill")));
    ps.push(member("tags", list_prop_value("string", "Tags for categorization")));
    ps.push(member("version", prop_value("string", "Skill version (default: 1.0.0)")));
    assert(member_views(ps@) =~= register_skill_properties());
    let mut req: Vec<String> = Vec::new();
    req.push(owned("name"));
    req.push(owned("description"));
    req.push(owned("category"));
    assert(texts(req@) =~= seq!["name"@, "description"@, "category"@]);
    object_value(ps, Some(req))
}

fn discover_skill_schema() -> (r: JsonValue)
    ensures
        r@ == object_with(discover_skill_properties(), Some(seq!["name"@, "description"@, "category"@, "source_experience_id"@])),
{
    let mut ps: Vec<(String, JsonValue)> = Vec::new();
    ps.push(member("category", prop_value("string", "Skill category")));
    ps.push(member("description", prop_value("string", "Description of the skill")));
    ps.push(member("name", prop_value("string", "Name of the discovered skill")));
    ps.push(member("source_experience_id", prop_value("string", "ID of the experience that led to this discovery")));
    assert(member_views(ps@) =~= discover_skill_properties());
    let mut req: Vec<String> = Vec::new();
    req.push(owned("name"));
    req.push(owned("description"));
    req.push(owned("category"));
    req.push(owned("source_experience_id"));
    assert(texts(req@) =~= seq!["name"@, "description"@, "category"@, "source_experience_id"@]);
    object_value(ps, Some(req))
}

fn get_skill_schema() -> (r: JsonValue)
    ensures
        r@ == object_with(get_skill_properties(), Some(seq!["skill_id"@])),
{
    let mut ps: Vec<(String, JsonValue)> = Vec::new();
    ps.push(member("skill_id", prop_value("string", "ID of the skill to retrieve")));
    assert(member_views(ps@) =~= get_skill_properties());
    let mut req: Vec<String> = Vec::new();
    req.push(owned("skill_id"));
    assert(texts(req@) =~= seq!["skill_id"@]);
    object_value(ps, Some(req))
}

fn list_skills_schema() -> (r: JsonValue)
    ensures
        r@ == object_with(list_skills_properties(), None),
{
    let mut ps: Vec<(String, JsonValue)> = Vec::new();
    ps.push(member("category", prop_value("string", "Filter by category")));
    ps.push(member("enabled_only", prop_value("boolean", "Only list enabled skills")));
    ps.push(member("limit", prop_value("integer", "Maximum number to return")));
    assert(member_views(ps@) =~= list_skills_properties());
    object_value(ps, None)
}

fn update_skill_mastery_schema() -> (r: JsonValue)
    ensures
        r@ == object_with(update_skill_mastery_properties(), Some(seq!["skill_id"@])),
{
    let mut ps: Vec<(String, JsonValue)> = Vec::new();
    ps.push(member("skill_id", prop_value("string", "ID of the skill")));
    ps.push(member("success", prop_value("boolean", "Whether the skill execution was successful (default: true)")));
    assert(member_views(ps@) =~= update_skill_mastery_properties());
    let mut req: Vec<String> = Vec::new();
    req.push(owned("skill_id"));
    assert(texts(req@) =~= seq!["skill_id"@]);
    object_value(ps, Some(req))
}

fn get_skill_recommendations_schema() -> (r: JsonValue)
    ensures
        r@ == object_with(get_skill_recommendations_properties(), None),
{
    let mut ps: Vec<(String, JsonValue)> = Vec::new();
    ps.push(member("category", prop_value("string", "Filter by category")));
    ps.push(member("limit", prop_value("integer", "Maximum recommendations to return (default: 5)")));
    assert(member_views(ps@) =~= get_skill_recommendations_properties());
    object_value(ps, None)
}

fn execute_skill_schema() -> (r: JsonValue)
    ensures
        r@ == object_with(execute_skill_properties(), Some(seq!["skill_id"@])),
{
    let mut ps: Vec<(String, JsonValue)> = Vec::new();
    ps.push(member("parameters", prop_value("object", "Key-value parameters for execution")));
    ps.push(member("skill_id", prop_value("string", "ID of the skill to execute")));
    ps.push(member("task", prop_value("string", "Task description for the skill")));
    ps.push(member("time_limit_secs", prop_value("integer", "Maximum execution time in seconds")));
    assert(member_views(ps@) =~= execute_skill_properties());
    let mut req: Vec<String> = Vec::new();
    req.push(owned("skill_id"));
    assert(texts(req@) =~= seq!["skill_id"@]);
    object_value(ps, Some(req))
}

fn get_skill_stats_schema() -> (r: JsonValue)
    ensures
        r@ == object_with(get_skill_stats_properties(), None),
{
    let mut ps: Vec<(String, JsonValue)> = Vec::new();
    assert(member_views(ps@) =~= get_skill_stats_properties());
    object_value(ps, None)
}

fn apply_skill_decay_schema() -> (r: JsonValue)
    ensures
        r@ == object_with(apply_skill_decay_properties(), None),
{
    let mut ps: Vec<(String, JsonValue)> = Vec::new();
    ps.push(member("decay_rate", prop_value("number", "Decay rate (default: 0.05)")));
    assert(member_views(ps@) =~= apply_skill_decay_properties());
    object_value(ps, None)
}

fn enable_disable_skill_schema() -> (r: JsonValue)
    ensures
        r@ == object_with(enable_disable_skill_properties(), Some(seq!["skill_id"@])),
{
    let mut ps: Vec<(String, JsonValue)> = Vec::new();
    ps.push(member("enable", prop_value("boolean", "true to enable, false to disable")));
    ps.push(member("skill_id", prop_value("string", "ID of the skill")));
    assert(member_views(ps@) =~= enable_disable_skill_properties());
    let mut req: Vec<String> = Vec::new();
    req.push(owned("skill_id"));
    assert(texts(req@) =~= seq!["skill_id"@]);
    object_value(ps, Some(req))
}

fn search_skills_schema() -> (r: JsonValue)
    ensures
        r@ == object_with(search_skills_properties(), Some(seq!["query"@])),
{
    let mut ps: Vec<(String, JsonValue)> = Vec::new();
    ps.push(member("category", prop_value("string", "Filter by category")));
    ps.push(member("min_mastery", prop_value("number", "Minimum mastery level")));
    ps.push(member("query", prop_value("string", "Search query")));
    assert(member_views(ps@) =~= search_skills_properties());
    let mut req: Vec<String> = Vec::new();
    req.push(owned("query"));
    assert(texts(req@) =~= seq!["query"@]);
    object_value(ps, Some(req))
}

/// The skills tools: name, description and input schema of each.
pub fn all() -> (r: Vec<McpTool>)
    ensures
        tool_views(r@) == skills_tool_table(),
{
    let mut v: Vec<McpTool> = Vec::new();
    v.push(ToolDefinition::new("register_skill", "Register a new skill in the skill registry. Skills represent reusable capabilities.", register_skill_schema()));
    v.push(ToolDefinition::new("discover_skill", "Create a skill discovered from an experience. Per Architecture §15: Skills emerge from experience.", discover_skill_schema()));
    v.push(ToolDefinition::new("get_skill", "Get details of a specific skill including mastery level, usage statistics, and prerequisites.", get_skill_schema()));
    v.push(ToolDefinition::new("list_skills", "List all registered skills, optionally filtered by category or enabled status.", list_skills_schema()));
    v.push(ToolDefinition::new("update_skill_mastery", "Update skill mastery based on execution outcome. Records success or failure for the skill.", update_skill_mastery_schema()));
    v.push(ToolDefinition::new("get_skill_recommendations", "Get skill recommendations based on readiness and usage patterns. Per Architecture §15.", get_skill_recommendations_schema()));
    v.push(ToolDefinition::new("execute_skill", "Execute a skill with provided task and parameters. Per Architecture §15: Skill::execute(&context).", execute_skill_schema()));
    v.push(ToolDefinition::new("get_skill_stats", "Get comprehensive statistics about the skill registry including mastery distribution.", get_skill_stats_schema()));
    v.push(ToolDefinition::new("apply_skill_decay", "Apply mastery decay to unused skills. Per Architecture §15: Skills include decay.", apply_skill_decay_schema()));
    v.push(ToolDefinition::new("enable_disable_skill", "Enable or disable a skill. Disabled skills cannot be executed.", enable_disable_skill_schema()));
    v.push(ToolDefinition::new("search_skills", "Search skills by query, category, or minimum mastery level.", search_skills_schema()));
    assert(tool_views(v@) =~= skills_tool_table());
    v
}

} // verus!
