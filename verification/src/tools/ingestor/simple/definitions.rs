//! Definitions of the single-folder import tools: names, descriptions and input schemas.

use vstd::prelude::*;
use crate::json::{JsonSpec, JsonValue, member_views, json_views};
use crate::skills::registry::texts;
use crate::text::owned;
use crate::tools::McpTool;
use crate::tools::plugins::{json_object, json_string, member, tool_views, ToolDefinition};
use crate::tools::schema::{json_array, object_value, object_with, prop, prop_value};

verus! {

/// The properties of `ingest_files`'s input.
pub open spec fn ingest_files_properties() -> Seq<(Seq<char>, JsonSpec)> {
    seq![
        ("chunk_size"@, prop("number"@, "Size of text chunks (default: 1000 characters)"@)),
        ("delete_after"@, prop("boolean"@, "Delete files after successful ingestion (default: false)"@)),
        ("folder"@, prop("string"@, "Path to folder containing files to import (defaults to 'files_to_import')"@)),
        ("limit"@, prop("number"@, "Maximum number of files to process"@)),
        ("memory_type"@, JsonSpec::Object(seq![
            ("description"@, JsonSpec::Str("Memory type for ingested content: note, file, conversation, code"@)),
            ("enum"@, JsonSpec::Array(seq![JsonSpec::Str("note"@), JsonSpec::Str("file"@), JsonSpec::Str("conversation"@), JsonSpec::Str("code"@)])),
            ("type"@, JsonSpec::Str("string"@)),
        ])),
    ]
}

/// The properties of `list_importable`'s input.
pub open spec fn list_importable_properties() -> Seq<(Seq<char>, JsonSpec)> {
    seq![
        ("folder"@, prop("string"@, "Path to folder to check (defaults to 'files_to_import')"@)),
    ]
}

/// The properties of `transcribe_audio`'s input.
pub open spec fn transcribe_audio_properties() -> Seq<(Seq<char>, JsonSpec)> {
    seq![
        ("output"@, prop("string"@, "Output path for transcription JSON file"@)),
        ("path"@, prop("string"@, "Path to the audio file"@)),
    ]
}

/// Name, description and input schema of each file import tool.
pub open spec fn file_import_tool_table() -> Seq<(Seq<char>, Seq<char>, JsonSpec)> {
    seq![
        ("ingest_files"@, "Ingest files from a folder into short-term memory. Handles zip, tar, pdf, txt, json, and audio files."@, object_with(ingest_files_properties(), None)),
        ("list_importable"@, "List all files ready for import in the import folder"@, object_with(list_importable_properties(), None)),
        ("transcribe_audio"@, "Transcribe an audio file to text (requires whisper or similar)"@, object_with(transcribe_audio_properties(), Some(seq!["path"@]))),
    ]
}

fn ingest_files_schema() -> (r: JsonValue)
    ensures
        r@ == object_with(ingest_files_properties(), None),
{
    let mut ps: Vec<(String, JsonValue)> = Vec::new();
    ps.push(member("chunk_size", prop_value("number", "Size of text chunks (default: 1000 characters)")));
    ps.push(member("delete_after", prop_value("boolean", "Delete files after successful ingestion (default: false)")));
    ps.push(member("folder", prop_value("string", "Path to folder containing files to import (defaults to 'files_to_import')")));
    ps.push(member("limit", prop_value("number", "Maximum number of files to process")));
    ps.push(member("memory_type", {
        let mut ms1: Vec<(String, JsonValue)> = Vec::new();
        ms1.push(member("description", json_string("Memory type for ingested content: note, file, conversation, code")));
        ms1.push(member("enum", {
            let mut items2: Vec<JsonValue> = Vec::new();
            items2.push(json_string("note"));
            items2.push(json_string("file"));
            items2.push(json_string("conversation"));
            items2.push(json_string("code"));
            assert(json_views(items2@) =~= seq![JsonSpec::Str("note"@), JsonSpec::Str("file"@), JsonSpec::Str("conversation"@), JsonSpec::Str("code"@)]);
            json_array(items2)
        }));
        ms1.push(member("type", json_string("string")));
        assert(member_views(ms1@) =~= seq![("description"@, JsonSpec::Str("Memory type for ingested content: note, file, conversation, code"@)), ("enum"@, JsonSpec::Array(seq![JsonSpec::Str("note"@), JsonSpec::Str("file"@), JsonSpec::Str("conversation"@), JsonSpec::Str("code"@)])), ("type"@, JsonSpec::Str("string"@))]);
        json_object(ms1)
    }));
    assert(member_views(ps@) =~= ingest_files_properties());
    object_value(ps, None)
}

fn list_importable_schema() -> (r: JsonValue)
    ensures
        r@ == object_with(list_importable_properties(), None),
{
    let mut ps: Vec<(String, JsonValue)> = Vec::new();
    ps.push(member("folder", prop_value("string", "Path to folder to check (defaults to 'files_to_import')")));
    assert(member_views(ps@) =~= list_importable_properties());
    object_value(ps, None)
}

fn transcribe_audio_schema() -> (r: JsonValue)
    ensures
        r@ == object_with(transcribe_audio_properties(), Some(seq!["path"@])),
{
    let mut ps: Vec<(String, JsonValue)> = Vec::new();
    ps.push(member("output", prop_value("string", "Output path for transcription JSON file")));
    ps.push(member("path", prop_value("string", "Path to the audio file")));
    assert(member_views(ps@) =~= transcribe_audio_properties());
    let mut req: Vec<String> = Vec::new();
    req.push(owned("path"));
    assert(texts(req@) =~= seq!["path"@]);
    object_value(ps, Some(req))
}

/// The file import tools: name, description and input schema of each.
pub fn all() -> (r: Vec<McpTool>)
    ensures
        tool_views(r@) == file_import_tool_table(),
{
    let mut v: Vec<McpTool> = Vec::new();
    v.push(ToolDefinition::new("ingest_files", "Ingest files from a folder into short-term memory. Handles zip, tar, pdf, txt, json, and audio files.", ingest_files_schema()));
    v.push(ToolDefinition::new("list_importable", "List all files ready for import in the import folder", list_importable_schema()));
    v.push(ToolDefinition::new("transcribe_audio", "Transcribe an audio file to text (requires whisper or similar)", transcribe_audio_schema()));
    assert(tool_views(v@) =~= file_import_tool_table());
    v
}

} // verus!
