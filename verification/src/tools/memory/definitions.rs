//! Definitions of the memory tools: names, descriptions and input schemas.

use vstd::prelude::*;
use crate::json::{JsonSpec, JsonValue, member_views, json_views};
use crate::skills::registry::texts;
use crate::text::owned;
use crate::tools::McpTool;
use crate::tools::plugins::{json_object, json_string, member, tool_views, ToolDefinition};
use crate::tools::schema::{json_array, json_number, list_prop, list_prop_value, object_value, object_with, prop, prop_value};

verus! {

/// The properties of `store_memory`'s input.
pub open spec fn store_memory_properties() -> Seq<(Seq<char>, JsonSpec)> {
    seq![
        ("confidence"@, JsonSpec::Object(seq![
            ("description"@, JsonSpec::Str("Confidence level (0.0 - 1.0)"@)),
            ("maximum"@, JsonSpec::Number("1.0"@, None, "1"@)),
            ("minimum"@, JsonSpec::Number("0.0"@, None, "0"@)),
            ("type"@, JsonSpec::Str("number"@)),
        ])),
        ("content"@, prop("string"@, "The content to store"@)),
        ("importance"@, JsonSpec::Object(seq![
            ("description"@, JsonSpec::Str("Importance level (0.0 - 1.0)"@)),
            ("maximum"@, JsonSpec::Number("1.0"@, None, "1"@)),
            ("minimum"@, JsonSpec::Number("0.0"@, None, "0"@)),
            ("type"@, JsonSpec::Str("number"@)),
        ])),
        ("memory_type"@, JsonSpec::Object(seq![
            ("description"@, JsonSpec::Str("Type of memory: note, fact, task, file, conversation, code, decision, event"@)),
            ("enum"@, JsonSpec::Array(seq![JsonSpec::Str("note"@), JsonSpec::Str("fact"@), JsonSpec::Str("task"@), JsonSpec::Str("file"@), JsonSpec::Str("conversation"@), JsonSpec::Str("code"@), JsonSpec::Str("decision"@), JsonSpec::Str("event"@)])),
            ("type"@, JsonSpec::Str("string"@)),
        ])),
        ("tags"@, list_prop("string"@, "Optional tags for categorization"@)),
    ]
}

/// The properties of `search_memory`'s input.
pub open spec fn search_memory_properties() -> Seq<(Seq<char>, JsonSpec)> {
    seq![
        ("limit"@, JsonSpec::Object(seq![
            ("default"@, JsonSpec::Number("10"@, Some(10i64), "10"@)),
            ("description"@, JsonSpec::Str("Maximum number of results"@)),
            ("type"@, JsonSpec::Str("number"@)),
        ])),
        ("query"@, prop("string"@, "Search query"@)),
    ]
}

/// The properties of `get_memory`'s input.
pub open spec fn get_memory_properties() -> Seq<(Seq<char>, JsonSpec)> {
    seq![
        ("id"@, prop("string"@, "Memory UUID"@)),
    ]
}

/// The properties of `list_memories`'s input.
pub open spec fn list_memories_properties() -> Seq<(Seq<char>, JsonSpec)> {
    seq![
        ("limit"@, JsonSpec::Object(seq![
            ("default"@, JsonSpec::Number("20"@, Some(20i64), "20"@)),
            ("description"@, JsonSpec::Str("Maximum number of results"@)),
            ("type"@, JsonSpec::Str("number"@)),
        ])),
        ("memory_type"@, prop("string"@, "Filter by memory type"@)),
    ]
}

/// The properties of `cleanup_memories`'s input.
pub open spec fn cleanup_memories_properties() -> Seq<(Seq<char>, JsonSpec)> {
    seq![
        ("confirmation"@, prop("string"@, "User confirmation: must be 'yes' to proceed with deletion"@)),
        ("ids"@, list_prop("string"@, "List of memory UUIDs to delete"@)),
    ]
}

/// The properties of `list_image_memories`'s input.
pub open spec fn list_image_memories_properties() -> Seq<(Seq<char>, JsonSpec)> {
    seq![
        ("include_garbage"@, prop("boolean"@, "Include garbage memories (binary data stored as text)"@)),
    ]
}

/// Name, description and input schema of each memory tool.
pub open spec fn memory_tool_table() -> Seq<(Seq<char>, Seq<char>, JsonSpec)> {
    seq![
        ("store_memory"@, "Store a new memory in the knowledge base"@, object_with(store_memory_properties(), Some(seq!["content"@, "memory_type"@]))),
        ("search_memory"@, "Search memories by content"@, object_with(search_memory_properties(), Some(seq!["query"@]))),
        ("get_memory"@, "Get a specific memory by ID"@, object_with(get_memory_properties(), Some(seq!["id"@]))),
        ("list_memories"@, "List recent memories"@, object_with(list_memories_properties(), None)),
        ("cleanup_memories"@, "Delete specific memories by ID (requires explicit user confirmation)"@, object_with(cleanup_memories_properties(), Some(seq!["ids"@, "confirmation"@]))),
        ("list_image_memories"@, "List image memories and detect garbage"@, object_with(list_image_memories_properties(), None)),
    ]
}

fn store_memory_schema() -> (r: JsonValue)
    ensures
        r@ == object_with(store_memory_properties(), Some(seq!["content"@, "memory_type"@])),
{
    let mut ps: Vec<(String, JsonValue)> = Vec::new();
    ps.push(member("confidence", {
        let mut ms1: Vec<(String, JsonValue)> = Vec::new();
        ms1.push(member("description", json_string("Confidence level (0.0 - 1.0)")));
        ms1.push(member("maximum", json_number("1.0", None, "1")));
        ms1.push(member("minimum", json_number("0.0", None, "0")));
        ms1.push(member("type", json_string("number")));
        assert(member_views(ms1@) =~= seq![("description"@, JsonSpec::Str("Confidence level (0.0 - 1.0)"@)), ("maximum"@, JsonSpec::Number("1.0"@, None, "1"@)), ("minimum"@, JsonSpec::Number("0.0"@, None, "0"@)), ("type"@, JsonSpec::Str("number"@))]);
        json_object(ms1)
    }));
    ps.push(member("content", prop_value("string", "The content to store")));
    ps.push(member("importance", {
        let mut ms2: Vec<(String, JsonValue)> = Vec::new();
        ms2.push(member("description", json_string("Importance level (0.0 - 1.0)")));
        ms2.push(member("maximum", json_number("1.0", None, "1")));
        ms2.push(member("minimum", json_number("0.0", None, "0")));
        ms2.push(member("type", json_string("number")));
        assert(member_views(ms2@) =~= seq![("description"@, JsonSpec::Str("Importance level (0.0 - 1.0)"@)), ("maximum"@, JsonSpec::Number("1.0"@, None, "1"@)), ("minimum"@, JsonSpec::Number("0.0"@, None, "0"@)), ("type"@, JsonSpec::Str("number"@))]);
        json_object(ms2)
    }));
    ps.push(member("memory_type", {
        let mut ms3: Vec<(String, JsonValue)> = Vec::new();
        ms3.push(member("description", json_string("Type of memory: note, fact, task, file, conversation, code, decision, event")));
        ms3.push(member("enum", {
            let mut items4: Vec<JsonValue> = Vec::new();
            items4.push(json_string("note"));
            items4.push(json_string("fact"));
            items4.push(json_string("task"));
            items4.push(json_string("file"));
            items4.push(json_string("conversation"));
            items4.push(json_string("code"));
            items4.push(json_string("decision"));
            items4.push(json_string("event"));
            assert(json_views(items4@) =~= seq![JsonSpec::Str("note"@), JsonSpec::Str("fact"@), JsonSpec::Str("task"@), JsonSpec::Str("file"@), JsonSpec::Str("conversation"@), JsonSpec::Str("code"@), JsonSpec::Str("decision"@), JsonSpec::Str("event"@)]);
            json_array(items4)
        }));
        ms3.push(member("type", json_string("string")));
        assert(member_views(ms3@) =~= seq![("description"@, JsonSpec::Str("Type of memory: note, fact, task, file, conversation, code, decision, event"@)), ("enum"@, JsonSpec::Array(seq![JsonSpec::Str("note"@), JsonSpec::Str("fact"@), JsonSpec::Str("task"@), JsonSpec::Str("file"@), JsonSpec::Str("conversation"@), JsonSpec::Str("code"@), JsonSpec::Str("decision"@), JsonSpec::Str("event"@)])), ("type"@, JsonSpec::Str("string"@))]);
        json_object(ms3)
    }));
    ps.push(member("tags", list_prop_value("string", "Optional tags for categorization")));
    assert(member_views(ps@) =~= store_memory_properties());
    let mut req: Vec<String> = Vec::new();
    req.push(owned("content"));
    req.push(owned("memory_type"));
    assert(texts(req@) =~= seq!["content"@, "memory_type"@]);
    object_value(ps, Some(req))
}

fn search_memory_schema() -> (r: JsonValue)
    ensures
        r@ == object_with(search_memory_properties(), Some(seq!["query"@])),
{
    let mut ps: Vec<(String, JsonValue)> = Vec::new();
    ps.push(member("limit", {
        let mut ms1: Vec<(String, JsonValue)> = Vec::new();
        ms1.push(member("default", json_number("10", Some(10), "10")));
        ms1.push(member("description", json_string("Maximum number of results")));
        ms1.push(member("type", json_string("number")));
        assert(member_views(ms1@) =~= seq![("default"@, JsonSpec::Number("10"@, Some(10i64), "10"@)), ("description"@, JsonSpec::Str("Maximum number of results"@)), ("type"@, JsonSpec::Str("number"@))]);
        json_object(ms1)
    }));
    ps.push(member("query", prop_value("string", "Search query")));
    assert(member_views(ps@) =~= search_memory_properties());
    let mut req: Vec<String> = Vec::new();
    req.push(owned("query"));
    assert(texts(req@) =~= seq!["query"@]);
    object_value(ps, Some(req))
}

fn get_memory_schema() -> (r: JsonValue)
    ensures
        r@ == object_with(get_memory_properties(), Some(seq!["id"@])),
{
    let mut ps: Vec<(String, JsonValue)> = Vec::new();
    ps.push(member("id", prop_value("string", "Memory UUID")));
    assert(member_views(ps@) =~= get_memory_properties());
    let mut req: Vec<String> = Vec::new();
    req.push(owned("id"));
    assert(texts(req@) =~= seq!["id"@]);
    object_value(ps, Some(req))
}

fn list_memories_schema() -> (r: JsonValue)
    ensures
        r@ == object_with(list_memories_properties(), None),
{
    let mut ps: Vec<(String, JsonValue)> = Vec::new();
    ps.push(member("limit", {
        let mut ms1: Vec<(String, JsonValue)> = Vec::new();
        ms1.push(member("default", json_number("20", Some(20), "20")));
        ms1.push(member("description", json_string("Maximum number of results")));
        ms1.push(member("type", json_string("number")));
        assert(member_views(ms1@) =~= seq![("default"@, JsonSpec::Number("20"@, Some(20i64), "20"@)), ("description"@, JsonSpec::Str("Maximum number of results"@)), ("type"@, JsonSpec::Str("number"@))]);
        json_object(ms1)
    }));
    ps.push(member("memory_type", prop_value("string", "Filter by memory type")));
    assert(member_views(ps@) =~= list_memories_properties());
    object_value(ps, None)
}

fn cleanup_memories_schema() -> (r: JsonValue)
    ensures
        r@ == object_with(cleanup_memories_properties(), Some(seq!["ids"@, "confirmation"@])),
{
    let mut ps: Vec<(String, JsonValue)> = Vec::new();
    ps.push(member("confirmation", prop_value("string", "User confirmation: must be 'yes' to proceed with deletion")));
    ps.push(member("ids", list_prop_value("string", "List of memory UUIDs to delete")));
    assert(member_views(ps@) =~= cleanup_memories_properties());
    let mut req: Vec<String> = Vec::new();
    req.push(owned("ids"));
    req.push(owned("confirmation"));
    assert(texts(req@) =~= seq!["ids"@, "confirmation"@]);
    object_value(ps, Some(req))
}

fn list_image_memories_schema() -> (r: JsonValue)
    ensures
        r@ == object_with(list_image_memories_properties(), None),
{
    let mut ps: Vec<(String, JsonValue)> = Vec::new();
    ps.push(member("include_garbage", prop_value("boolean", "Include garbage memories (binary data stored as text)")));
    assert(member_views(ps@) =~= list_image_memories_properties());
    object_value(ps, None)
}

/// The memory tools: name, description and input schema of each.
pub fn all() -> (r: Vec<McpTool>)
    ensures
        tool_views(r@) == memory_tool_table(),
{
    let mut v: Vec<McpTool> = Vec::new();
    v.push(ToolDefinition::new("store_memory", "Store a new memory in the knowledge base", store_memory_schema()));
    v.push(ToolDefinition::new("search_memory", "Search memories by content", search_memory_schema()));
    v.push(ToolDefinition::new("get_memory", "Get a specific memory by ID", get_memory_schema()));
    v.push(ToolDefinition::new("list_memories", "List recent memories", list_memories_schema()));
    v.push(ToolDefinition::new("cleanup_memories", "Delete specific memories by ID (requires explicit user confirmation)", cleanup_memories_schema()));
    v.push(ToolDefinition::new("list_image_memories", "List image memories and detect garbage", list_image_memories_schema()));
    assert(tool_views(v@) =~= memory_tool_table());
    v
}

} // verus!
