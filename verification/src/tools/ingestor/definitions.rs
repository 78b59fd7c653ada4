//! Definitions of the ingestion tools: names, descriptions and input schemas.

use vstd::prelude::*;
use crate::json::{JsonSpec, JsonValue, member_views};
use crate::skills::registry::texts;
use crate::text::owned;
use crate::tools::McpTool;
use crate::tools::plugins::{member, tool_views, ToolDefinition};
use crate::tools::schema::{list_prop, list_prop_value, object_value, object_with, prop, prop_value};

verus! {

/// The properties of `ingest_files`'s input.
pub open spec fn ingest_files_properties() -> Seq<(Seq<char>, JsonSpec)> {
    seq![
        ("chunk_size"@, prop("integer"@, "Chunk size for splitting text (default: 1000, JSON: 16384)"@)),
        ("file_path"@, prop("string"@, "Ingest one specific file by full path. Example: '/path/to/file.txt'"@)),
        ("folder"@, prop("string"@, "Optional. Import folder name (defaults to 'files_to_import' if not specified). The folder should be next to robot_brain executable."@)),
        ("force"@, prop("boolean"@, "Force re-ingestion of already-ingested files (default: false)"@)),
        ("limit"@, prop("integer"@, "Number of files to ingest (default: 1). Ingest one at a time."@)),
        ("memory_type"@, prop("string"@, "Memory type: file, conversation, code, note (default: file)"@)),
        ("recursive"@, prop("boolean"@, "Search subfolders recursively (default: true)"@)),
    ]
}

/// The properties of `list_importable`'s input.
pub open spec fn list_importable_properties() -> Seq<(Seq<char>, JsonSpec)> {
    seq![
        ("all"@, prop("boolean"@, "List all files without limit (default: false)"@)),
        ("folder"@, prop("string"@, "Optional. Import folder name (defaults to 'files_to_import' if not specified)."@)),
        ("limit"@, prop("integer"@, "Max files to return (default: 5)"@)),
        ("recursive"@, prop("boolean"@, "Search subfolders recursively (default: true)"@)),
    ]
}

/// The properties of `transcribe_audio`'s input.
pub open spec fn transcribe_audio_properties() -> Seq<(Seq<char>, JsonSpec)> {
    seq![
        ("path"@, prop("string"@, "Full path to the audio file to transcribe"@)),
        ("store_as_memory"@, prop("boolean"@, "Store the transcription as memory (default: true)"@)),
    ]
}

/// The properties of `list_ingested_files`'s input.
pub open spec fn list_ingested_files_properties() -> Seq<(Seq<char>, JsonSpec)> {
    seq![
        ("folder"@, prop("string"@, "Optional. Import folder name (defaults to 'files_to_import' if not specified)."@)),
        ("limit"@, prop("integer"@, "Max files to return"@)),
        ("recursive"@, prop("boolean"@, "Search subfolders recursively (default: true)"@)),
    ]
}

/// The properties of `delete_ingested_files`'s input.
pub open spec fn delete_ingested_files_properties() -> Seq<(Seq<char>, JsonSpec)> {
    seq![
        ("confirmation"@, prop("string"@, "Must be 'yes' to confirm deletion"@)),
        ("files"@, list_prop("string"@, "File paths to delete (must be ingested files)"@)),
    ]
}

/// Name, description and input schema of each ingestion tool.
pub open spec fn ingestion_tool_table() -> Seq<(Seq<char>, Seq<char>, JsonSpec)> {
    seq![
        ("ingest_files"@, "Ingest files from files_to_import folder into memory. When no path is specified, automatically ingests from the files_to_import folder. Returns memory IDs for stored content."@, object_with(ingest_files_properties(), Some(Seq::empty()))),
        ("list_importable"@, "List files available for import. Shows files in the files_to_import folder by default."@, object_with(list_importable_properties(), Some(Seq::empty()))),
        ("transcribe_audio"@, "Transcribe an audio file to text using Whisper AI."@, object_with(transcribe_audio_properties(), Some(seq!["path"@]))),
        ("list_ingested_files"@, "List files that have been successfully ingested."@, object_with(list_ingested_files_properties(), None)),
        ("delete_ingested_files"@, "Delete original files after successful ingestion. Requires confirmation='yes'."@, object_with(delete_ingested_files_properties(), Some(seq!["files"@, "confirmation"@]))),
    ]
}

fn ingest_files_schema() -> (r: JsonValue)
    ensures
        r@ == object_with(ingest_files_properties(), Some(Seq::empty())),
{
    let mut ps: Vec<(String, JsonValue)> = Vec::new();
    ps.push(member("chunk_size", prop_value("integer", "Chunk size for splitting text (default: 1000, JSON: 16384)")));
    ps.push(member("file_path", prop_value("string", "Ingest one specific file by full path. Example: '/path/to/file.txt'")));
    ps.push(member("folder", prop_value("string", "Optional. Import folder name (defaults to 'files_to_import' if not specified). The folder should be next to robot_brain executable.")));
    ps.push(member("force", prop_value("boolean", "Force re-ingestion of already-ingested files (default: false)")));
    ps.push(member("limit", prop_value("integer", "Number of files to ingest (default: 1). Ingest one at a time.")));
    ps.push(member("memory_type", prop_value("string", "Memory type: file, conversation, code, note (default: file)")));
    ps.push(member("recursive", prop_value("boolean", "Search subfolders recursively (default: true)")));
    assert(member_views(ps@) =~= ingest_files_properties());
    let mut req: Vec<String> = Vec::new();
    assert(texts(req@) =~= Seq::<Seq<char>>::empty());
    object_value(ps, Some(req))
}

fn list_importable_schema() -> (r: JsonValue)
    ensures
        r@ == object_with(list_importable_properties(), Some(Seq::empty())),
{
    let mut ps: Vec<(String, JsonValue)> = Vec::new();
    ps.push(member("all", prop_value("boolean", "List all files without limit (default: false)")));
    ps.push(member("folder", prop_value("string", "Optional. Import folder name (defaults to 'files_to_import' if not specified).")));
    ps.push(member("limit", prop_value("integer", "Max files to return (default: 5)")));
    ps.push(member("recursive", prop_value("boolean", "Search subfolders recursively (default: true)")));
    assert(member_views(ps@) =~= list_importable_properties());
    let mut req: Vec<String> = Vec::new();
    assert(texts(req@) =~= Seq::<Seq<char>>::empty());
    object_value(ps, Some(req))
}

fn transcribe_audio_schema() -> (r: JsonValue)
    ensures
        r@ == object_with(transcribe_audio_properties(), Some(seq!["path"@])),
{
    let mut ps: Vec<(String, JsonValue)> = Vec::new();
    ps.push(member("path", prop_value("string", "Full path to the audio file to transcribe")));
    ps.push(member("store_as_memory", prop_value("boolean", "Store the transcription as memory (default: true)")));
    assert(member_views(ps@) =~= transcribe_audio_properties());
    let mut req: Vec<String> = Vec::new();
    req.push(owned("path"));
    assert(texts(req@) =~= seq!["path"@]);
    object_value(ps, Some(req))
}

fn list_ingested_files_schema() -> (r: JsonValue)
    ensures
        r@ == object_with(list_ingested_files_properties(), None),
{
    let mut ps: Vec<(String, JsonValue)> = Vec::new();
    ps.push(member("folder", prop_value("string", "Optional. Import folder name (defaults to 'files_to_import' if not specified).")));
    ps.push(member("limit", prop_value("integer", "Max files to return")));
    ps.push(member("recursive", prop_value("boolean", "Search subfolders recursively (default: true)")));
    assert(member_views(ps@) =~= list_ingested_files_properties());
    object_value(ps, None)
}

fn delete_ingested_files_schema() -> (r: JsonValue)
    ensures
        r@ == object_with(delete_ingested_files_properties(), Some(seq!["files"@, "confirmation"@])),
{
    let mut ps: Vec<(String, JsonValue)> = Vec::new();
    ps.push(member("confirmation", prop_value("string", "Must be 'yes' to confirm deletion")));
    ps.push(member("files", list_prop_value("string", "File paths to delete (must be ingested files)")));
    assert(member_views(ps@) =~= delete_ingested_files_properties());
    let mut req: Vec<String> = Vec::new();
    req.push(owned("files"));
    req.push(owned("confirmation"));
    assert(texts(req@) =~= seq!["files"@, "confirmation"@]);
    object_value(ps, Some(req))
}

/// The ingestion tools: name, description and input schema of each.
pub fn all() -> (r: Vec<McpTool>)
    ensures
        tool_views(r@) == ingestion_tool_table(),
{
    let mut v: Vec<McpTool> = Vec::new();
    v.push(ToolDefinition::new("ingest_files", "Ingest files from files_to_import folder into memory. When no path is specified, automatically ingests from the files_to_import folder. Returns memory IDs for stored content.", ingest_files_schema()));
    v.push(ToolDefinition::new("list_importable", "List files available for import. Shows files in the files_to_import folder by default.", list_importable_schema()));
    v.push(ToolDefinition::new("transcribe_audio", "Transcribe an audio file to text using Whisper AI.", transcribe_audio_schema()));
    v.push(ToolDefinition::new("list_ingested_files", "List files that have been successfully ingested.", list_ingested_files_schema()));
    v.push(ToolDefinition::new("delete_ingested_files", "Delete original files after successful ingestion. Requires confirmation='yes'.", delete_ingested_files_schema()));
    assert(tool_views(v@) =~= ingestion_tool_table());
    v
}

} // verus!
