use robot_brain::json::to_json_string;
use robot_brain::tools::plugins::ToolDefinition;

fn names(v: &[ToolDefinition]) -> Vec<&str> {
    v.iter().map(|t| t.name.as_str()).collect()
}

#[test]
fn test_ingestion_definitions() {
    let tools = robot_brain::tools::ingestor::definitions::all();
    assert_eq!(
        names(&tools),
        vec!["ingest_files", "list_importable", "transcribe_audio", "list_ingested_files", "delete_ingested_files"]
    );
    assert_eq!(
        to_json_string(&tools[3].input_schema),
        "{\"properties\":{\"folder\":{\"description\":\"Optional. Import folder name (defaults to 'files_to_import' if not specified).\",\"type\":\"string\"},\"limit\":{\"description\":\"Max files to return\",\"type\":\"integer\"},\"recursive\":{\"description\":\"Search subfolders recursively (default: true)\",\"type\":\"boolean\"}},\"type\":\"object\"}"
    );
    assert_eq!(
        to_json_string(&tools[4].input_schema),
        "{\"properties\":{\"confirmation\":{\"description\":\"Must be 'yes' to confirm deletion\",\"type\":\"string\"},\"files\":{\"description\":\"File paths to delete (must be ingested files)\",\"items\":{\"type\":\"string\"},\"type\":\"array\"}},\"required\":[\"files\",\"confirmation\"],\"type\":\"object\"}"
    );
}

#[test]
fn test_definition_counts() {
    assert_eq!(robot_brain::tools::skills::definitions::all().len(), 11);
    assert_eq!(robot_brain::tools::hypothesis::definitions::all().len(), 10);
    assert_eq!(robot_brain::tools::exploration::definitions::all().len(), 10);
    assert_eq!(robot_brain::tools::exploration_tools::definitions::all().len(), 10);
    assert_eq!(robot_brain::tools::memory::definitions::all().len(), 6);
    assert_eq!(robot_brain::tools::reflection::definitions::all().len(), 4);
    assert_eq!(
        names(&robot_brain::tools::ingestor::simple::definitions::all()),
        vec!["ingest_files", "list_importable", "transcribe_audio"]
    );
    let skills = robot_brain::tools::skills::definitions::all();
    assert_eq!(skills[0].name, "register_skill");
    let schema = to_json_string(&skills[0].input_schema);
    assert!(schema.contains("\"enum\":[\"file_operation\",\"code_analysis\",\"search\",\"memory\",\"learning\",\"planning\",\"communication\",\"web\",\"database\",\"system\",\"custom\"]"));
    assert!(schema.ends_with("\"required\":[\"name\",\"description\",\"category\"],\"type\":\"object\"}"));
}

#[test]
fn test_numbers_in_schemas() {
    let memory = robot_brain::tools::memory::definitions::all();
    let all: Vec<String> = memory.iter().map(|t| to_json_string(&t.input_schema)).collect();
    assert!(all.iter().any(|s| s.contains("\"maximum\":1.0") && s.contains("\"minimum\":0.0")));
    assert!(all.iter().any(|s| s.contains("\"default\":10")));
}
