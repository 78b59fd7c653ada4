//! Tool plugins: each groups the tools of one area under a name, lists
//! their definitions and answers calls to them.

use vstd::prelude::*;
use crate::json::{JsonValue, JsonSpec, JsonNumber, member_views, lemma_object_view, lemma_array_view, json_views};

verus! {

/// Definition of one tool: its name, what it does, and the JSON schema of
/// its input.
#[derive(Debug, Clone)]
pub struct ToolDefinition {
    pub name: String,
    pub description: String,
    pub input_schema: JsonValue,
}

impl ToolDefinition {
    /// A definition with the given parts.
    pub fn new(name: &str, description: &str, input_schema: JsonValue) -> (r: Self)
        ensures
            r.name@ == name@,
            r.description@ == description@,
            r.input_schema@ == input_schema@,
    {
        ToolDefinition {
            name: crate::text::owned(name),
            description: crate::text::owned(description),
            input_schema,
        }
    }
}

/// Name, description and schema of each definition.
pub open spec fn tool_views(v: Seq<ToolDefinition>) -> Seq<(Seq<char>, Seq<char>, JsonSpec)> {
    Seq::new(v.len(), |i: int| (v[i].name@, v[i].description@, v[i].input_schema@))
}

/// The empty object `{}`.
pub open spec fn empty_object() -> JsonSpec {
    JsonSpec::Object(Seq::empty())
}

/// The empty object `{}`.
pub fn empty_schema() -> (r: JsonValue)
    ensures
        r@ == empty_object(),
{
    let members: Vec<(String, JsonValue)> = Vec::new();
    proof { lemma_object_view(members); }
    let r = JsonValue::Object(members);
    assert(member_views(members@) =~= Seq::<(Seq<char>, JsonSpec)>::empty());
    r
}

/// A JSON string.
pub fn json_string(s: &str) -> (r: JsonValue)
    ensures
        r@ == JsonSpec::Str(s@),
{
    JsonValue::String(crate::text::owned(s))
}

/// An object from its members, in order.
pub fn json_object(members: Vec<(String, JsonValue)>) -> (r: JsonValue)
    ensures
        r@ == JsonSpec::Object(member_views(members@)),
{
    proof { lemma_object_view(members); }
    JsonValue::Object(members)
}

/// A member of an object.
pub fn member(key: &str, value: JsonValue) -> (r: (String, JsonValue))
    ensures
        r.0@ == key@,
        r.1@ == value@,
{
    (crate::text::owned(key), value)
}

/// The answer of a tool that is not implemented yet.
pub open spec fn placeholder_reply(tool: Seq<char>) -> JsonSpec {
    JsonSpec::Object(
        seq![
            ("message"@, JsonSpec::Str("Tool implementation pending"@)),
            ("status"@, JsonSpec::Str("placeholder"@)),
            ("tool"@, JsonSpec::Str(tool)),
        ],
    )
}

/// The answer of a tool that is not implemented yet.
pub fn placeholder_response(tool_name: &str) -> (r: JsonValue)
    ensures
        r@ == placeholder_reply(tool_name@),
{
    let mut ms: Vec<(String, JsonValue)> = Vec::new();
    ms.push(member("message", json_string("Tool implementation pending")));
    ms.push(member("status", json_string("placeholder")));
    ms.push(member("tool", json_string(tool_name)));
    let r = json_object(ms);
    assert(member_views(ms@) =~= seq![
        ("message"@, JsonSpec::Str("Tool implementation pending"@)),
        ("status"@, JsonSpec::Str("placeholder"@)),
        ("tool"@, JsonSpec::Str(tool_name@)),
    ]);
    r
}

/// A group of tools loaded as one plugin.
pub trait ToolPlugin {
    /// The tool category name (e.g., "memory", "skills").
    fn name(&self) -> &'static str;

    /// All tools provided by this plugin.
    fn tools(&self) -> Vec<ToolDefinition>;

    /// Execute a tool by name.
    fn execute(&self, tool_name: &str, input: JsonValue) -> Result<JsonValue, String>;

    /// Initialize the plugin (called after loading).
    fn init(&self) -> Result<(), String> {
        Ok(())
    }
}

/// Agent tools.
pub struct AgentTools;

impl AgentTools {
    /// The plugin.
    pub fn new() -> (r: Self) {
        AgentTools
    }
}

/// Name, description and input schema of each agent tool.
pub open spec fn agent_tool_table() -> Seq<(Seq<char>, Seq<char>, JsonSpec)> {
    seq![
        ("list_tools"@, "List all available MCP tools with optional filter"@, empty_object()),
        ("get_tool"@, "Get detailed information about a specific tool"@, empty_object()),
        ("connect_mcp_server"@, "Connect to an external MCP server via child process"@, empty_object()),
        ("call_tool"@, "Call a tool on a connected MCP server"@, empty_object()),
    ]
}

impl ToolPlugin for AgentTools {
    fn name(&self) -> (r: &'static str)
        ensures
            r@ == "agent"@,
    {
        "agent"
    }

    fn tools(&self) -> (r: Vec<ToolDefinition>)
        ensures
            tool_views(r@) == agent_tool_table(),
    {
        let mut v: Vec<ToolDefinition> = Vec::new();
        v.push(ToolDefinition::new("list_tools", "List all available MCP tools with optional filter", empty_schema()));
        v.push(ToolDefinition::new("get_tool", "Get detailed information about a specific tool", empty_schema()));
        v.push(ToolDefinition::new("connect_mcp_server", "Connect to an external MCP server via child process", empty_schema()));
        v.push(ToolDefinition::new("call_tool", "Call a tool on a connected MCP server", empty_schema()));
        assert(tool_views(v@) =~= agent_tool_table());
        v
    }

    fn execute(&self, tool_name: &str, input: JsonValue) -> (r: Result<JsonValue, String>)
        ensures
            r matches Ok(v) && v@ == placeholder_reply(tool_name@),
    {
        Ok(placeholder_response(tool_name))
    }
}

/// Experience tools.
pub struct ExperienceTools;

impl ExperienceTools {
    /// The plugin.
    pub fn new() -> (r: Self) {
        ExperienceTools
    }
}

/// Name, description and input schema of each experience tool.
pub open spec fn experience_tool_table() -> Seq<(Seq<char>, Seq<char>, JsonSpec)> {
    seq![
        ("record_experience"@, "Record a new experience"@, empty_object()),
        ("get_experience_stats"@, "Get experience statistics"@, empty_object()),
        ("list_experiences"@, "List recent experiences"@, empty_object()),
        ("get_experience"@, "Get a specific experience by ID"@, empty_object()),
        ("get_worker_stats"@, "Get background worker statistics"@, empty_object()),
        ("get_worker_count"@, "Get the number of active background workers"@, empty_object()),
    ]
}

impl ToolPlugin for ExperienceTools {
    fn name(&self) -> (r: &'static str)
        ensures
            r@ == "experience"@,
    {
        "experience"
    }

    fn tools(&self) -> (r: Vec<ToolDefinition>)
        ensures
            tool_views(r@) == experience_tool_table(),
    {
        let mut v: Vec<ToolDefinition> = Vec::new();
        v.push(ToolDefinition::new("record_experience", "Record a new experience", empty_schema()));
        v.push(ToolDefinition::new("get_experience_stats", "Get experience statistics", empty_schema()));
        v.push(ToolDefinition::new("list_experiences", "List recent experiences", empty_schema()));
        v.push(ToolDefinition::new("get_experience", "Get a specific experience by ID", empty_schema()));
        v.push(ToolDefinition::new("get_worker_stats", "Get background worker statistics", empty_schema()));
        v.push(ToolDefinition::new("get_worker_count", "Get the number of active background workers", empty_schema()));
        assert(tool_views(v@) =~= experience_tool_table());
        v
    }

    fn execute(&self, tool_name: &str, input: JsonValue) -> (r: Result<JsonValue, String>)
        ensures
            r matches Ok(v) && v@ == placeholder_reply(tool_name@),
    {
        Ok(placeholder_response(tool_name))
    }
}

/// Exploration tools.
pub struct ExplorationTools;

impl ExplorationTools {
    /// The plugin.
    pub fn new() -> (r: Self) {
        ExplorationTools
    }
}

/// Name, description and input schema of each exploration tool.
pub open spec fn exploration_tool_table() -> Seq<(Seq<char>, Seq<char>, JsonSpec)> {
    seq![
        ("start_exploration"@, "Start a new exploration session"@, empty_object()),
        ("get_exploration_status"@, "Get the current status of an exploration"@, empty_object()),
        ("complete_exploration"@, "Mark an exploration as completed"@, empty_object()),
        ("abandon_exploration"@, "Abandon an exploration without completing it"@, empty_object()),
        ("record_attempt"@, "Record an attempt made during exploration"@, empty_object()),
        ("add_exploration_hypothesis"@, "Add a testable hypothesis to an exploration"@, empty_object()),
        ("evaluate_exploration_hypothesis"@, "Set the result for a hypothesis"@, empty_object()),
        ("promote_finding"@, "Promote a finding to reusable knowledge"@, empty_object()),
        ("pause_exploration"@, "Pause an active exploration"@, empty_object()),
        ("resume_exploration"@, "Resume a paused exploration"@, empty_object()),
    ]
}

impl ToolPlugin for ExplorationTools {
    fn name(&self) -> (r: &'static str)
        ensures
            r@ == "exploration"@,
    {
        "exploration"
    }

    fn tools(&self) -> (r: Vec<ToolDefinition>)
        ensures
            tool_views(r@) == exploration_tool_table(),
    {
        let mut v: Vec<ToolDefinition> = Vec::new();
        v.push(ToolDefinition::new("start_exploration", "Start a new exploration session", empty_schema()));
        v.push(ToolDefinition::new("get_exploration_status", "Get the current status of an exploration", empty_schema()));
        v.push(ToolDefinition::new("complete_exploration", "Mark an exploration as completed", empty_schema()));
        v.push(ToolDefinition::new("abandon_exploration", "Abandon an exploration without completing it", empty_schema()));
        v.push(ToolDefinition::new("record_attempt", "Record an attempt made during exploration", empty_schema()));
        v.push(ToolDefinition::new("add_exploration_hypothesis", "Add a testable hypothesis to an exploration", empty_schema()));
        v.push(ToolDefinition::new("evaluate_exploration_hypothesis", "Set the result for a hypothesis", empty_schema()));
        v.push(ToolDefinition::new("promote_finding", "Promote a finding to reusable knowledge", empty_schema()));
        v.push(ToolDefinition::new("pause_exploration", "Pause an active exploration", empty_schema()));
        v.push(ToolDefinition::new("resume_exploration", "Resume a paused exploration", empty_schema()));
        assert(tool_views(v@) =~= exploration_tool_table());
        v
    }

    fn execute(&self, tool_name: &str, input: JsonValue) -> (r: Result<JsonValue, String>)
        ensures
            r matches Ok(v) && v@ == placeholder_reply(tool_name@),
    {
        Ok(placeholder_response(tool_name))
    }
}

/// Hypothesis tools.
pub struct HypothesisTools;

impl HypothesisTools {
    /// The plugin.
    pub fn new() -> (r: Self) {
        HypothesisTools
    }
}

/// Name, description and input schema of each hypothesis tool.
pub open spec fn hypothesis_tool_table() -> Seq<(Seq<char>, Seq<char>, JsonSpec)> {
    seq![
        ("record_observation"@, "Record an observation"@, empty_object()),
        ("create_hypothesis"@, "Create a testable hypothesis from observations"@, empty_object()),
        ("add_evidence"@, "Add evidence to a hypothesis"@, empty_object()),
        ("get_hypothesis"@, "Get details of a specific hypothesis"@, empty_object()),
        ("list_hypotheses"@, "List all hypotheses with optional filters"@, empty_object()),
        ("list_observations"@, "List recorded observations"@, empty_object()),
        ("evaluate_hypothesis"@, "Evaluate a hypothesis based on its evidence"@, empty_object()),
        ("get_evidence"@, "Get a specific evidence record by its ID"@, empty_object()),
        ("list_evidence"@, "List all evidence records across hypotheses"@, empty_object()),
    ]
}

impl ToolPlugin for HypothesisTools {
    fn name(&self) -> (r: &'static str)
        ensures
            r@ == "hypothesis"@,
    {
        "hypothesis"
    }

    fn tools(&self) -> (r: Vec<ToolDefinition>)
        ensures
            tool_views(r@) == hypothesis_tool_table(),
    {
        let mut v: Vec<ToolDefinition> = Vec::new();
        v.push(ToolDefinition::new("record_observation", "Record an observation", empty_schema()));
        v.push(ToolDefinition::new("create_hypothesis", "Create a testable hypothesis from observations", empty_schema()));
        v.push(ToolDefinition::new("add_evidence", "Add evidence to a hypothesis", empty_schema()));
        v.push(ToolDefinition::new("get_hypothesis", "Get details of a specific hypothesis", empty_schema()));
        v.push(ToolDefinition::new("list_hypotheses", "List all hypotheses with optional filters", empty_schema()));
        v.push(ToolDefinition::new("list_observations", "List recorded observations", empty_schema()));
        v.push(ToolDefinition::new("evaluate_hypothesis", "Evaluate a hypothesis based on its evidence", empty_schema()));
        v.push(ToolDefinition::new("get_evidence", "Get a specific evidence record by its ID", empty_schema()));
        v.push(ToolDefinition::new("list_evidence", "List all evidence records across hypotheses", empty_schema()));
        assert(tool_views(v@) =~= hypothesis_tool_table());
        v
    }

    fn execute(&self, tool_name: &str, input: JsonValue) -> (r: Result<JsonValue, String>)
        ensures
            r matches Ok(v) && v@ == placeholder_reply(tool_name@),
    {
        Ok(placeholder_response(tool_name))
    }
}

/// Ingestor tools.
pub struct IngestorTools;

impl IngestorTools {
    /// The plugin.
    pub fn new() -> (r: Self) {
        IngestorTools
    }
}

/// Name, description and input schema of each ingestor tool.
pub open spec fn ingestor_tool_table() -> Seq<(Seq<char>, Seq<char>, JsonSpec)> {
    seq![
        ("ingest_files"@, "Ingest files from files_to_import folder"@, empty_object()),
        ("list_importable"@, "List files available for import"@, empty_object()),
        ("transcribe_audio"@, "Transcribe an audio file to text"@, empty_object()),
        ("list_ingested_files"@, "List files that have been successfully ingested"@, empty_object()),
        ("delete_ingested_files"@, "Delete original files after successful ingestion"@, empty_object()),
    ]
}

impl ToolPlugin for IngestorTools {
    fn name(&self) -> (r: &'static str)
        ensures
            r@ == "ingestor"@,
    {
        "ingestor"
    }

    fn tools(&self) -> (r: Vec<ToolDefinition>)
        ensures
            tool_views(r@) == ingestor_tool_table(),
    {
        let mut v: Vec<ToolDefinition> = Vec::new();
        v.push(ToolDefinition::new("ingest_files", "Ingest files from files_to_import folder", empty_schema()));
        v.push(ToolDefinition::new("list_importable", "List files available for import", empty_schema()));
        v.push(ToolDefinition::new("transcribe_audio", "Transcribe an audio file to text", empty_schema()));
        v.push(ToolDefinition::new("list_ingested_files", "List files that have been successfully ingested", empty_schema()));
        v.push(ToolDefinition::new("delete_ingested_files", "Delete original files after successful ingestion", empty_schema()));
        assert(tool_views(v@) =~= ingestor_tool_table());
        v
    }

    fn execute(&self, tool_name: &str, input: JsonValue) -> (r: Result<JsonValue, String>)
        ensures
            r matches Ok(v) && v@ == placeholder_reply(tool_name@),
    {
        Ok(placeholder_response(tool_name))
    }
}

/// Knowledge tools.
pub struct KnowledgeTools;

impl KnowledgeTools {
    /// The plugin.
    pub fn new() -> (r: Self) {
        KnowledgeTools
    }
}

/// Name, description and input schema of each knowledge tool.
pub open spec fn knowledge_tool_table() -> Seq<(Seq<char>, Seq<char>, JsonSpec)> {
    seq![
        ("get_knowledge"@, "Get learned knowledge extracted from validated hypotheses"@, empty_object()),
        ("extract_knowledge"@, "Extract knowledge from a validated hypothesis"@, empty_object()),
        ("add_knowledge"@, "Add new validated knowledge to the knowledge base"@, empty_object()),
        ("query_knowledge"@, "Query the knowledge base for relevant knowledge"@, empty_object()),
        ("record_knowledge_application"@, "Record the result of applying knowledge"@, empty_object()),
        ("get_knowledge_stats"@, "Get statistics about the knowledge base"@, empty_object()),
        ("get_mature_knowledge"@, "Get all mature (high-confidence) knowledge"@, empty_object()),
    ]
}

impl ToolPlugin for KnowledgeTools {
    fn name(&self) -> (r: &'static str)
        ensures
            r@ == "knowledge"@,
    {
        "knowledge"
    }

    fn tools(&self) -> (r: Vec<ToolDefinition>)
        ensures
            tool_views(r@) == knowledge_tool_table(),
    {
        let mut v: Vec<ToolDefinition> = Vec::new();
        v.push(ToolDefinition::new("get_knowledge", "Get learned knowledge extracted from validated hypotheses", empty_schema()));
        v.push(ToolDefinition::new("extract_knowledge", "Extract knowledge from a validated hypothesis", empty_schema()));
        v.push(ToolDefinition::new("add_knowledge", "Add new validated knowledge to the knowledge base", empty_schema()));
        v.push(ToolDefinition::new("query_knowledge", "Query the knowledge base for relevant knowledge", empty_schema()));
        v.push(ToolDefinition::new("record_knowledge_application", "Record the result of applying knowledge", empty_schema()));
        v.push(ToolDefinition::new("get_knowledge_stats", "Get statistics about the knowledge base", empty_schema()));
        v.push(ToolDefinition::new("get_mature_knowledge", "Get all mature (high-confidence) knowledge", empty_schema()));
        assert(tool_views(v@) =~= knowledge_tool_table());
        v
    }

    fn execute(&self, tool_name: &str, input: JsonValue) -> (r: Result<JsonValue, String>)
        ensures
            r matches Ok(v) && v@ == placeholder_reply(tool_name@),
    {
        Ok(placeholder_response(tool_name))
    }
}

/// Planner tools.
pub struct PlannerTools;

impl PlannerTools {
    /// The plugin.
    pub fn new() -> (r: Self) {
        PlannerTools
    }
}

/// Name, description and input schema of each planner tool.
pub open spec fn planner_tool_table() -> Seq<(Seq<char>, Seq<char>, JsonSpec)> {
    seq![
        ("create_plan"@, "Create a new plan from a goal"@, empty_object()),
        ("add_plan_step"@, "Add a step to an existing plan"@, empty_object()),
        ("add_step_dependency"@, "Add a dependency between steps"@, empty_object()),
        ("get_plan"@, "Get a plan by ID"@, empty_object()),
        ("list_plans"@, "List all active plans"@, empty_object()),
        ("start_plan"@, "Start executing a plan"@, empty_object()),
        ("complete_step"@, "Mark a step as completed"@, empty_object()),
        ("fail_step"@, "Mark a step as failed"@, empty_object()),
        ("cancel_plan"@, "Cancel a plan"@, empty_object()),
    ]
}

impl ToolPlugin for PlannerTools {
    fn name(&self) -> (r: &'static str)
        ensures
            r@ == "planner"@,
    {
        "planner"
    }

    fn tools(&self) -> (r: Vec<ToolDefinition>)
        ensures
            tool_views(r@) == planner_tool_table(),
    {
        let mut v: Vec<ToolDefinition> = Vec::new();
        v.push(ToolDefinition::new("create_plan", "Create a new plan from a goal", empty_schema()));
        v.push(ToolDefinition::new("add_plan_step", "Add a step to an existing plan", empty_schema()));
        v.push(ToolDefinition::new("add_step_dependency", "Add a dependency between steps", empty_schema()));
        v.push(ToolDefinition::new("get_plan", "Get a plan by ID", empty_schema()));
        v.push(ToolDefinition::new("list_plans", "List all active plans", empty_schema()));
        v.push(ToolDefinition::new("start_plan", "Start executing a plan", empty_schema()));
        v.push(ToolDefinition::new("complete_step", "Mark a step as completed", empty_schema()));
        v.push(ToolDefinition::new("fail_step", "Mark a step as failed", empty_schema()));
        v.push(ToolDefinition::new("cancel_plan", "Cancel a plan", empty_schema()));
        assert(tool_views(v@) =~= planner_tool_table());
        v
    }

    fn execute(&self, tool_name: &str, input: JsonValue) -> (r: Result<JsonValue, String>)
        ensures
            r matches Ok(v) && v@ == placeholder_reply(tool_name@),
    {
        Ok(placeholder_response(tool_name))
    }
}

/// Reflection tools.
pub struct ReflectionTools;

impl ReflectionTools {
    /// The plugin.
    pub fn new() -> (r: Self) {
        ReflectionTools
    }
}

/// Name, description and input schema of each reflection tool.
pub open spec fn reflection_tool_table() -> Seq<(Seq<char>, Seq<char>, JsonSpec)> {
    seq![
        ("get_insights"@, "Get actionable insights from reflections"@, empty_object()),
        ("create_reflection"@, "Create a new reflection"@, empty_object()),
        ("analyze_patterns"@, "Analyze experiences to detect patterns"@, empty_object()),
        ("get_patterns"@, "Get detected patterns"@, empty_object()),
    ]
}

impl ToolPlugin for ReflectionTools {
    fn name(&self) -> (r: &'static str)
        ensures
            r@ == "reflection"@,
    {
        "reflection"
    }

    fn tools(&self) -> (r: Vec<ToolDefinition>)
        ensures
            tool_views(r@) == reflection_tool_table(),
    {
        let mut v: Vec<ToolDefinition> = Vec::new();
        v.push(ToolDefinition::new("get_insights", "Get actionable insights from reflections", empty_schema()));
        v.push(ToolDefinition::new("create_reflection", "Create a new reflection", empty_schema()));
        v.push(ToolDefinition::new("analyze_patterns", "Analyze experiences to detect patterns", empty_schema()));
        v.push(ToolDefinition::new("get_patterns", "Get detected patterns", empty_schema()));
        assert(tool_views(v@) =~= reflection_tool_table());
        v
    }

    fn execute(&self, tool_name: &str, input: JsonValue) -> (r: Result<JsonValue, String>)
        ensures
            r matches Ok(v) && v@ == placeholder_reply(tool_name@),
    {
        Ok(placeholder_response(tool_name))
    }
}

/// Search tools.
pub struct SearchTools;

impl SearchTools {
    /// The plugin.
    pub fn new() -> (r: Self) {
        SearchTools
    }
}

/// Name, description and input schema of each search tool.
pub open spec fn search_tool_table() -> Seq<(Seq<char>, Seq<char>, JsonSpec)> {
    seq![
        ("global_search"@, "Search across all memories and experiences"@, empty_object()),
        ("get_recommendations"@, "Get recommendations based on learned patterns"@, empty_object()),
        ("get_reputation"@, "Get reputation score for a target"@, empty_object()),
    ]
}

impl ToolPlugin for SearchTools {
    fn name(&self) -> (r: &'static str)
        ensures
            r@ == "search"@,
    {
        "search"
    }

    fn tools(&self) -> (r: Vec<ToolDefinition>)
        ensures
            tool_views(r@) == search_tool_table(),
    {
        let mut v: Vec<ToolDefinition> = Vec::new();
        v.push(ToolDefinition::new("global_search", "Search across all memories and experiences", empty_schema()));
        v.push(ToolDefinition::new("get_recommendations", "Get recommendations based on learned patterns", empty_schema()));
        v.push(ToolDefinition::new("get_reputation", "Get reputation score for a target", empty_schema()));
        assert(tool_views(v@) =~= search_tool_table());
        v
    }

    fn execute(&self, tool_name: &str, input: JsonValue) -> (r: Result<JsonValue, String>)
        ensures
            r matches Ok(v) && v@ == placeholder_reply(tool_name@),
    {
        Ok(placeholder_response(tool_name))
    }
}

/// Skills tools.
pub struct SkillsTools;

impl SkillsTools {
    /// The plugin.
    pub fn new() -> (r: Self) {
        SkillsTools
    }
}

/// Name, description and input schema of each skills tool.
pub open spec fn skills_tool_table() -> Seq<(Seq<char>, Seq<char>, JsonSpec)> {
    seq![
        ("register_skill"@, "Register a new skill in the skill registry"@, empty_object()),
        ("discover_skill"@, "Create a skill discovered from an experience"@, empty_object()),
        ("get_skill"@, "Get details of a specific skill"@, empty_object()),
        ("list_skills"@, "List all registered skills"@, empty_object()),
        ("update_skill_mastery"@, "Update skill mastery based on execution outcome"@, empty_object()),
        ("get_skill_recommendations"@, "Get skill recommendations based on readiness"@, empty_object()),
        ("execute_skill"@, "Execute a skill with provided task and parameters"@, empty_object()),
        ("get_skill_stats"@, "Get comprehensive statistics about the skill registry"@, empty_object()),
        ("apply_skill_decay"@, "Apply mastery decay to unused skills"@, empty_object()),
        ("enable_disable_skill"@, "Enable or disable a skill"@, empty_object()),
        ("search_skills"@, "Search skills by query, category, or minimum mastery level"@, empty_object()),
    ]
}

impl ToolPlugin for SkillsTools {
    fn name(&self) -> (r: &'static str)
        ensures
            r@ == "skills"@,
    {
        "skills"
    }

    fn tools(&self) -> (r: Vec<ToolDefinition>)
        ensures
            tool_views(r@) == skills_tool_table(),
    {
        let mut v: Vec<ToolDefinition> = Vec::new();
        v.push(ToolDefinition::new("register_skill", "Register a new skill in the skill registry", empty_schema()));
        v.push(ToolDefinition::new("discover_skill", "Create a skill discovered from an experience", empty_schema()));
        v.push(ToolDefinition::new("get_skill", "Get details of a specific skill", empty_schema()));
        v.push(ToolDefinition::new("list_skills", "List all registered skills", empty_schema()));
        v.push(ToolDefinition::new("update_skill_mastery", "Update skill mastery based on execution outcome", empty_schema()));
        v.push(ToolDefinition::new("get_skill_recommendations", "Get skill recommendations based on readiness", empty_schema()));
        v.push(ToolDefinition::new("execute_skill", "Execute a skill with provided task and parameters", empty_schema()));
        v.push(ToolDefinition::new("get_skill_stats", "Get comprehensive statistics about the skill registry", empty_schema()));
        v.push(ToolDefinition::new("apply_skill_decay", "Apply mastery decay to unused skills", empty_schema()));
        v.push(ToolDefinition::new("enable_disable_skill", "Enable or disable a skill", empty_schema()));
        v.push(ToolDefinition::new("search_skills", "Search skills by query, category, or minimum mastery level", empty_schema()));
        assert(tool_views(v@) =~= skills_tool_table());
        v
    }

    fn execute(&self, tool_name: &str, input: JsonValue) -> (r: Result<JsonValue, String>)
        ensures
            r matches Ok(v) && v@ == placeholder_reply(tool_name@),
    {
        Ok(placeholder_response(tool_name))
    }
}

/// Workflow tools.
pub struct WorkflowTools;

impl WorkflowTools {
    /// The plugin.
    pub fn new() -> (r: Self) {
        WorkflowTools
    }
}

/// Name, description and input schema of each workflow tool.
pub open spec fn workflow_tool_table() -> Seq<(Seq<char>, Seq<char>, JsonSpec)> {
    seq![
        ("create_workflow"@, "Create a new workflow with a name and optional description"@, empty_object()),
        ("add_workflow_step"@, "Add a step to an existing workflow"@, empty_object()),
        ("get_workflow_status"@, "Get the current status and details of a workflow"@, empty_object()),
        ("list_workflows"@, "List all workflows, optionally filtered by status"@, empty_object()),
        ("start_workflow"@, "Start executing a workflow"@, empty_object()),
        ("pause_workflow"@, "Pause a running workflow"@, empty_object()),
        ("resume_workflow"@, "Resume a paused workflow"@, empty_object()),
        ("cancel_workflow"@, "Cancel a workflow, removing it from execution"@, empty_object()),
        ("delete_workflow"@, "Delete a workflow completely"@, empty_object()),
    ]
}

impl ToolPlugin for WorkflowTools {
    fn name(&self) -> (r: &'static str)
        ensures
            r@ == "workflow"@,
    {
        "workflow"
    }

    fn tools(&self) -> (r: Vec<ToolDefinition>)
        ensures
            tool_views(r@) == workflow_tool_table(),
    {
        let mut v: Vec<ToolDefinition> = Vec::new();
        v.push(ToolDefinition::new("create_workflow", "Create a new workflow with a name and optional description", empty_schema()));
        v.push(ToolDefinition::new("add_workflow_step", "Add a step to an existing workflow", empty_schema()));
        v.push(ToolDefinition::new("get_workflow_status", "Get the current status and details of a workflow", empty_schema()));
        v.push(ToolDefinition::new("list_workflows", "List all workflows, optionally filtered by status", empty_schema()));
        v.push(ToolDefinition::new("start_workflow", "Start executing a workflow", empty_schema()));
        v.push(ToolDefinition::new("pause_workflow", "Pause a running workflow", empty_schema()));
        v.push(ToolDefinition::new("resume_workflow", "Resume a paused workflow", empty_schema()));
        v.push(ToolDefinition::new("cancel_workflow", "Cancel a workflow, removing it from execution", empty_schema()));
        v.push(ToolDefinition::new("delete_workflow", "Delete a workflow completely", empty_schema()));
        assert(tool_views(v@) =~= workflow_tool_table());
        v
    }

    fn execute(&self, tool_name: &str, input: JsonValue) -> (r: Result<JsonValue, String>)
        ensures
            r matches Ok(v) && v@ == placeholder_reply(tool_name@),
    {
        Ok(placeholder_response(tool_name))
    }
}


// ---------------------------------------------------------------------------
// Memory tools
// ---------------------------------------------------------------------------

/// `{"type": t}`.
pub open spec fn type_is(t: Seq<char>) -> JsonSpec {
    JsonSpec::Object(seq![("type"@, JsonSpec::Str(t))])
}

/// An object schema with the given properties.
pub open spec fn object_schema(props: Seq<(Seq<char>, JsonSpec)>) -> JsonSpec {
    JsonSpec::Object(seq![("properties"@, JsonSpec::Object(props)), ("type"@, JsonSpec::Str("object"@))])
}

/// The schema of a list of numbers.
pub open spec fn number_list() -> JsonSpec {
    JsonSpec::Object(seq![("items"@, type_is("number"@)), ("type"@, JsonSpec::Str("array"@))])
}

/// Name, description and input schema of each memory tool.
pub open spec fn memory_tool_table() -> Seq<(Seq<char>, Seq<char>, JsonSpec)> {
    seq![
        ("get_workflow"@, "MANDATORY: Get workflow rules. MUST be called before any other tool."@, object_schema(seq![("purpose"@, type_is("string"@))])),
        ("store_memory"@, "Store a new memory in the knowledge base"@, object_schema(seq![("content"@, type_is("string"@)), ("memory_type"@, type_is("string"@))])),
        ("search_memory"@, "Search memories by content"@, object_schema(seq![("query"@, type_is("string"@))])),
        ("get_memory"@, "Get a specific memory by ID"@, object_schema(seq![("id"@, type_is("string"@))])),
        ("list_memories"@, "List recent memories"@, object_schema(seq![("limit"@, type_is("number"@))])),
        ("store_embedding"@, "Store a vector embedding for semantic memory search"@, object_schema(seq![("embedding"@, number_list()), ("memory_id"@, type_is("string"@))])),
        ("get_embedding"@, "Get an embedding by memory ID"@, object_schema(seq![("memory_id"@, type_is("string"@))])),
        ("search_similar"@, "Search for similar memories using vector similarity"@, object_schema(seq![("embedding"@, number_list()), ("limit"@, type_is("number"@))])),
        ("list_embeddings"@, "List all memory embeddings"@, type_is("object"@)),
        ("delete_embedding"@, "Delete an embedding by memory ID"@, object_schema(seq![("memory_id"@, type_is("string"@))])),
        ("get_embedding_stats"@, "Get vector index statistics"@, type_is("object"@)),
    ]
}

fn type_schema(t: &str) -> (r: JsonValue)
    ensures
        r@ == type_is(t@),
{
    let mut ms: Vec<(String, JsonValue)> = Vec::new();
    ms.push(member("type", json_string(t)));
    let r = json_object(ms);
    assert(member_views(ms@) =~= seq![("type"@, JsonSpec::Str(t@))]);
    r
}

fn object_schema_exec(props: Vec<(String, JsonValue)>) -> (r: JsonValue)
    ensures
        r@ == object_schema(member_views(props@)),
{
    let ghost pv = member_views(props@);
    let mut ms: Vec<(String, JsonValue)> = Vec::new();
    ms.push(member("properties", json_object(props)));
    ms.push(member("type", json_string("object")));
    let r = json_object(ms);
    assert(member_views(ms@) =~= seq![("properties"@, JsonSpec::Object(pv)), ("type"@, JsonSpec::Str("object"@))]);
    r
}

fn one_prop(name: &str, v: JsonValue) -> (r: JsonValue)
    ensures
        r@ == object_schema(seq![(name@, v@)]),
{
    let ghost vv = v@;
    let mut ps: Vec<(String, JsonValue)> = Vec::new();
    ps.push(member(name, v));
    assert(member_views(ps@) =~= seq![(name@, vv)]);
    object_schema_exec(ps)
}

fn two_props(a: &str, va: JsonValue, b: &str, vb: JsonValue) -> (r: JsonValue)
    ensures
        r@ == object_schema(seq![(a@, va@), (b@, vb@)]),
{
    let ghost x = va@;
    let ghost y = vb@;
    let mut ps: Vec<(String, JsonValue)> = Vec::new();
    ps.push(member(a, va));
    ps.push(member(b, vb));
    assert(member_views(ps@) =~= seq![(a@, x), (b@, y)]);
    object_schema_exec(ps)
}

fn number_list_exec() -> (r: JsonValue)
    ensures
        r@ == number_list(),
{
    let mut ms: Vec<(String, JsonValue)> = Vec::new();
    ms.push(member("items", type_schema("number")));
    ms.push(member("type", json_string("array")));
    let r = json_object(ms);
    assert(member_views(ms@) =~= seq![("items"@, type_is("number"@)), ("type"@, JsonSpec::Str("array"@))]);
    r
}

/// The JSON number 0.
pub open spec fn zero() -> JsonSpec {
    JsonSpec::Number("0"@, Some(0i64), "0"@)
}

/// The empty list.
pub open spec fn empty_list() -> JsonSpec {
    JsonSpec::Array(Seq::empty())
}

/// `{"input": input, "status": status, "tool": tool}`.
pub open spec fn echo_reply(status: Seq<char>, tool: Seq<char>, input: JsonSpec) -> JsonSpec {
    JsonSpec::Object(seq![("input"@, input), ("status"@, JsonSpec::Str(status)), ("tool"@, JsonSpec::Str(tool))])
}

/// `{"input": input, "results": [], "status": "searched", "tool": tool}`.
pub open spec fn search_reply(tool: Seq<char>, input: JsonSpec) -> JsonSpec {
    JsonSpec::Object(seq![("input"@, input), ("results"@, empty_list()), ("status"@, JsonSpec::Str("searched"@)), ("tool"@, JsonSpec::Str(tool))])
}

/// `{list: [], "status": "listed", "tool": tool}`.
pub open spec fn list_reply(list: Seq<char>, tool: Seq<char>) -> JsonSpec {
    JsonSpec::Object(seq![(list, empty_list()), ("status"@, JsonSpec::Str("listed"@)), ("tool"@, JsonSpec::Str(tool))])
}

/// The workflow rules answered by `get_workflow`.
pub open spec fn workflow_reply() -> JsonSpec {
    JsonSpec::Object(seq![("workflow_rules"@, JsonSpec::Array(seq![
        JsonSpec::Str("1. Always call get_workflow first"@),
        JsonSpec::Str("2. Search memory before storing"@),
        JsonSpec::Str("3. Use embeddings for semantic search"@),
    ]))])
}

/// What the memory plugin answers to a call: an acknowledgement per tool
/// (echoing the input where the tool takes one), an error for unknown tools.
pub open spec fn memory_reply(tool: Seq<char>, input: JsonSpec) -> Result<JsonSpec, Seq<char>> {
    if tool == "get_workflow"@ {
        Ok(workflow_reply())
    } else if tool == "store_memory"@ || tool == "store_embedding"@ {
        Ok(echo_reply("stored"@, tool, input))
    } else if tool == "search_memory"@ || tool == "search_similar"@ {
        Ok(search_reply(tool, input))
    } else if tool == "get_memory"@ || tool == "get_embedding"@ {
        Ok(echo_reply("retrieved"@, tool, input))
    } else if tool == "list_memories"@ {
        Ok(list_reply("memories"@, tool))
    } else if tool == "list_embeddings"@ {
        Ok(list_reply("embeddings"@, tool))
    } else if tool == "delete_embedding"@ {
        Ok(echo_reply("deleted"@, tool, input))
    } else if tool == "get_embedding_stats"@ {
        Ok(JsonSpec::Object(seq![("index_size"@, zero()), ("status"@, JsonSpec::Str("retrieved"@)), ("tool"@, JsonSpec::Str(tool)), ("total_embeddings"@, zero())]))
    } else {
        Err("Unknown tool: "@ + tool)
    }
}

fn zero_exec() -> (r: JsonValue)
    ensures
        r@ == zero(),
{
    JsonValue::Number(JsonNumber { text: crate::text::owned("0"), as_i64: Some(0i64), f64_text: crate::text::owned("0") })
}

fn empty_list_exec() -> (r: JsonValue)
    ensures
        r@ == empty_list(),
{
    let items: Vec<JsonValue> = Vec::new();
    proof { lemma_array_view(items); }
    let r = JsonValue::Array(items);
    assert(json_views(items@) =~= Seq::<JsonSpec>::empty());
    r
}

fn echo_exec(status: &str, tool: &str, input: JsonValue) -> (r: JsonValue)
    ensures
        r@ == echo_reply(status@, tool@, input@),
{
    let ghost iv = input@;
    let mut ms: Vec<(String, JsonValue)> = Vec::new();
    ms.push(member("input", input));
    ms.push(member("status", json_string(status)));
    ms.push(member("tool", json_string(tool)));
    let r = json_object(ms);
    assert(member_views(ms@) =~= seq![("input"@, iv), ("status"@, JsonSpec::Str(status@)), ("tool"@, JsonSpec::Str(tool@))]);
    r
}

fn search_exec(tool: &str, input: JsonValue) -> (r: JsonValue)
    ensures
        r@ == search_reply(tool@, input@),
{
    let ghost iv = input@;
    let mut ms: Vec<(String, JsonValue)> = Vec::new();
    ms.push(member("input", input));
    ms.push(member("results", empty_list_exec()));
    ms.push(member("status", json_string("searched")));
    ms.push(member("tool", json_string(tool)));
    let r = json_object(ms);
    assert(member_views(ms@) =~= seq![("input"@, iv), ("results"@, empty_list()), ("status"@, JsonSpec::Str("searched"@)), ("tool"@, JsonSpec::Str(tool@))]);
    r
}

fn list_exec(list: &str, tool: &str) -> (r: JsonValue)
    ensures
        r@ == list_reply(list@, tool@),
{
    let mut ms: Vec<(String, JsonValue)> = Vec::new();
    ms.push(member(list, empty_list_exec()));
    ms.push(member("status", json_string("listed")));
    ms.push(member("tool", json_string(tool)));
    let r = json_object(ms);
    assert(member_views(ms@) =~= seq![(list@, empty_list()), ("status"@, JsonSpec::Str("listed"@)), ("tool"@, JsonSpec::Str(tool@))]);
    r
}

fn workflow_exec() -> (r: JsonValue)
    ensures
        r@ == workflow_reply(),
{
    let mut rules: Vec<JsonValue> = Vec::new();
    rules.push(json_string("1. Always call get_workflow first"));
    rules.push(json_string("2. Search memory before storing"));
    rules.push(json_string("3. Use embeddings for semantic search"));
    proof { lemma_array_view(rules); }
    assert(json_views(rules@) =~= seq![
        JsonSpec::Str("1. Always call get_workflow first"@),
        JsonSpec::Str("2. Search memory before storing"@),
        JsonSpec::Str("3. Use embeddings for semantic search"@),
    ]);
    let list = JsonValue::Array(rules);
    let mut ms: Vec<(String, JsonValue)> = Vec::new();
    ms.push(member("workflow_rules", list));
    let r = json_object(ms);
    assert(member_views(ms@) =~= seq![("workflow_rules"@, workflow_reply()->Object_0[0].1)]);
    r
}

fn stats_exec(tool: &str) -> (r: JsonValue)
    ensures
        r@ == JsonSpec::Object(seq![("index_size"@, zero()), ("status"@, JsonSpec::Str("retrieved"@)), ("tool"@, JsonSpec::Str(tool@)), ("total_embeddings"@, zero())]),
{
    let mut ms: Vec<(String, JsonValue)> = Vec::new();
    ms.push(member("index_size", zero_exec()));
    ms.push(member("status", json_string("retrieved")));
    ms.push(member("tool", json_string(tool)));
    ms.push(member("total_embeddings", zero_exec()));
    let r = json_object(ms);
    assert(member_views(ms@) =~= seq![("index_size"@, zero()), ("status"@, JsonSpec::Str("retrieved"@)), ("tool"@, JsonSpec::Str(tool@)), ("total_embeddings"@, zero())]);
    r
}

/// Memory tools.
pub struct MemoryTools;

impl MemoryTools {
    /// The plugin.
    pub fn new() -> (r: Self) {
        MemoryTools
    }
}

impl ToolPlugin for MemoryTools {
    fn name(&self) -> (r: &'static str)
        ensures
            r@ == "memory"@,
    {
        "memory"
    }

    fn tools(&self) -> (r: Vec<ToolDefinition>)
        ensures
            tool_views(r@) == memory_tool_table(),
    {
        let mut v: Vec<ToolDefinition> = Vec::new();
        v.push(ToolDefinition::new("get_workflow", "MANDATORY: Get workflow rules. MUST be called before any other tool.", one_prop("purpose", type_schema("string"))));
        v.push(ToolDefinition::new("store_memory", "Store a new memory in the knowledge base", two_props("content", type_schema("string"), "memory_type", type_schema("string"))));
        v.push(ToolDefinition::new("search_memory", "Search memories by content", one_prop("query", type_schema("string"))));
        v.push(ToolDefinition::new("get_memory", "Get a specific memory by ID", one_prop("id", type_schema("string"))));
        v.push(ToolDefinition::new("list_memories", "List recent memories", one_prop("limit", type_schema("number"))));
        v.push(ToolDefinition::new("store_embedding", "Store a vector embedding for semantic memory search", two_props("embedding", number_list_exec(), "memory_id", type_schema("string"))));
        v.push(ToolDefinition::new("get_embedding", "Get an embedding by memory ID", one_prop("memory_id", type_schema("string"))));
        v.push(ToolDefinition::new("search_similar", "Search for similar memories using vector similarity", two_props("embedding", number_list_exec(), "limit", type_schema("number"))));
        v.push(ToolDefinition::new("list_embeddings", "List all memory embeddings", type_schema("object")));
        v.push(ToolDefinition::new("delete_embedding", "Delete an embedding by memory ID", one_prop("memory_id", type_schema("string"))));
        v.push(ToolDefinition::new("get_embedding_stats", "Get vector index statistics", type_schema("object")));
        assert(tool_views(v@) =~= memory_tool_table());
        v
    }

    fn execute(&self, tool_name: &str, input: JsonValue) -> (r: Result<JsonValue, String>)
        ensures
            match memory_reply(tool_name@, input@) {
                Ok(x) => r matches Ok(v) && v@ == x,
                Err(e) => r matches Err(m) && m@ == e,
            },
    {
        let eq = |a: &str, b: &str| -> (r: bool)
            ensures r == (a@ == b@)
        { crate::text::str_eq(a, b) };
        if eq(tool_name, "get_workflow") {
            Ok(workflow_exec())
        } else if eq(tool_name, "store_memory") || eq(tool_name, "store_embedding") {
            Ok(echo_exec("stored", tool_name, input))
        } else if eq(tool_name, "search_memory") || eq(tool_name, "search_similar") {
            Ok(search_exec(tool_name, input))
        } else if eq(tool_name, "get_memory") || eq(tool_name, "get_embedding") {
            Ok(echo_exec("retrieved", tool_name, input))
        } else if eq(tool_name, "list_memories") {
            Ok(list_exec("memories", tool_name))
        } else if eq(tool_name, "list_embeddings") {
            Ok(list_exec("embeddings", tool_name))
        } else if eq(tool_name, "delete_embedding") {
            Ok(echo_exec("deleted", tool_name, input))
        } else if eq(tool_name, "get_embedding_stats") {
            Ok(stats_exec(tool_name))
        } else {
            let mut m = crate::text::to_chars("Unknown tool: ");
            let t = crate::text::to_chars(tool_name);
            crate::text::append_chars(&mut m, t.as_slice());
            Err(crate::text::from_chars(m.as_slice()))
        }
    }
}

} // verus!
