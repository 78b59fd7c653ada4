use robot_brain::json::{to_json_string, JsonValue};
use robot_brain::tools::plugins::{
    AgentTools, ExperienceTools, ExplorationTools, HypothesisTools, IngestorTools, KnowledgeTools,
    MemoryTools, PlannerTools, ReflectionTools, SearchTools, SkillsTools, ToolPlugin, WorkflowTools,
};
use robot_brain::tools::{get_tools, register_tools, ToolOutput, ToolRegistry};
use robot_brain::tools::registry::{invoke_tool_with_auth, register_tool, reference_tool_registry_contracts, run_isolated, IsolationContext, ToolContract};
use robot_brain::tools::execution_pipeline::{execute_tool_pipeline, reference_tool_execution_pipeline, tool_lifecycle, ToolAuditEntry, ToolInvocationRequest};

#[test]
fn test_get_tools_sync() {
    // get_tools() returns empty vec when registry not initialized
    let tools = get_tools(None);
    assert!(tools.is_empty());
}

#[test]
fn test_register_then_get_tools() {
    let mut registry = ToolRegistry::new();
    register_tools(&mut registry, vec![AgentTools::new().tools(), SearchTools::new().tools()]);
    let tools = get_tools(Some(&registry));
    assert_eq!(tools.len(), 7);
    assert_eq!(tools[0].name, "list_tools");
    assert_eq!(tools[4].name, SearchTools::new().tools()[0].name);
    register_tools(&mut registry, vec![]);
    assert!(get_tools(Some(&registry)).is_empty());
}

#[test]
fn test_plugin_names_and_counts() {
    let plugins: Vec<Box<dyn ToolPlugin>> = vec![
        Box::new(AgentTools::new()),
        Box::new(ExperienceTools::new()),
        Box::new(ExplorationTools::new()),
        Box::new(HypothesisTools::new()),
        Box::new(IngestorTools::new()),
        Box::new(KnowledgeTools::new()),
        Box::new(MemoryTools::new()),
        Box::new(PlannerTools::new()),
        Box::new(ReflectionTools::new()),
        Box::new(SearchTools::new()),
        Box::new(SkillsTools::new()),
        Box::new(WorkflowTools::new()),
    ];
    let names: Vec<&str> = plugins.iter().map(|p| p.name()).collect();
    assert_eq!(names, vec!["agent", "experience", "exploration", "hypothesis", "ingestor", "knowledge", "memory", "planner", "reflection", "search", "skills", "workflow"]);
    let counts: Vec<usize> = plugins.iter().map(|p| p.tools().len()).collect();
    assert_eq!(counts, vec![4, 6, 10, 9, 5, 7, 11, 9, 4, 3, 11, 9]);
    assert!(plugins.iter().all(|p| p.init().is_ok()));
}

#[test]
fn test_placeholder_execute() {
    let out = SkillsTools::new().execute("list_skills", JsonValue::Null).unwrap();
    assert_eq!(
        to_json_string(&out),
        r#"{"message":"Tool implementation pending","status":"placeholder","tool":"list_skills"}"#
    );
}

#[test]
fn test_memory_plugin_schemas_and_replies() {
    let tools = MemoryTools::new().tools();
    assert_eq!(to_json_string(&tools[0].input_schema), r#"{"properties":{"purpose":{"type":"string"}},"type":"object"}"#);
    assert_eq!(
        to_json_string(&tools[5].input_schema),
        r#"{"properties":{"embedding":{"items":{"type":"number"},"type":"array"},"memory_id":{"type":"string"}},"type":"object"}"#
    );
    assert_eq!(to_json_string(&tools[10].input_schema), r#"{"type":"object"}"#);
    let m = MemoryTools::new();
    let input = JsonValue::Object(vec![("query".to_string(), JsonValue::String("cats".to_string()))]);
    let out = m.execute("search_memory", input).unwrap();
    assert_eq!(to_json_string(&out), r#"{"input":{"query":"cats"},"results":[],"status":"searched","tool":"search_memory"}"#);
    let stats = m.execute("get_embedding_stats", JsonValue::Null).unwrap();
    assert_eq!(to_json_string(&stats), r#"{"index_size":0,"status":"retrieved","tool":"get_embedding_stats","total_embeddings":0}"#);
    let wf = m.execute("get_workflow", JsonValue::Null).unwrap();
    assert_eq!(to_json_string(&wf), r#"{"workflow_rules":["1. Always call get_workflow first","2. Search memory before storing","3. Use embeddings for semantic search"]}"#);
    assert_eq!(m.execute("fly", JsonValue::Null).unwrap_err(), "Unknown tool: fly");
}

#[test]
fn test_tool_output_constructors() {
    let ok = ToolOutput::success(JsonValue::Bool(true));
    assert!(ok.success && ok.error.is_none());
    let err = ToolOutput::error("boom");
    assert!(!err.success);
    assert_eq!(err.error.as_deref(), Some("boom"));
    assert!(matches!(err.data, JsonValue::Null));
}

#[test]
fn test_registry_and_pipeline() {
    let contract = ToolContract {
        name: "t".to_string(),
        description: "d".to_string(),
        input_schema: JsonValue::Null,
        output_schema: JsonValue::Null,
        version: "1".to_string(),
    };
    assert_eq!(register_tool(contract).unwrap(), "tool-id");
    assert_eq!(reference_tool_registry_contracts(), "tool-id");
    let v = invoke_tool_with_auth("grep", "agent").unwrap();
    assert_eq!(to_json_string(&v), r#"{"status":"executed","tool":"grep"}"#);
    let req = ToolInvocationRequest::new("grep", "agent", JsonValue::Null);
    assert_eq!(req.timeout_ms, 30_000);
    assert_eq!(req.correlation_id.len(), 36);
    let res = execute_tool_pipeline(&req);
    assert!(res.success);
    assert_eq!(res.correlation_id, req.correlation_id);
    assert_eq!(res.audit_id.len(), 36);
    let life = tool_lifecycle("ls", "me", JsonValue::Null);
    assert_eq!(to_json_string(life.output.as_ref().unwrap()), r#"{"status":"executed","tool":"ls"}"#);
    assert_eq!(reference_tool_execution_pipeline(), (true, true));
    let audit = ToolAuditEntry::new("a", "b", "c", false, "d");
    assert_eq!(audit.action, "c");
    assert!(!audit.success);
    let ctx = IsolationContext { timeout_ms: 5 };
    assert_eq!(run_isolated(&ctx, || 41 + 1), 42);
}
