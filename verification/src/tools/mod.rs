//! Tool layer: permissions, registration, tool inputs and file ingestion.

pub mod permissions;
pub mod registry;
pub mod external;
pub mod execution_pipeline;
pub mod agent;
pub mod exploration;
pub mod hypothesis;
pub mod reflection;
pub mod skills;
pub mod memory;
pub mod ingestor;
pub mod plugins;
pub mod schema;
pub mod exploration_tools;

use vstd::prelude::*;
use crate::json::{JsonValue, JsonSpec};
use crate::tools::plugins::{ToolDefinition, ToolPlugin, tool_views};

verus! {

/// Standard output of a tool execution.
#[derive(Debug, Clone)]
pub struct ToolOutput {
    /// Whether the tool execution was successful
    pub success: bool,
    /// The result data from the tool
    pub data: JsonValue,
    /// Optional error message if execution failed
    pub error: Option<String>,
}

impl ToolOutput {
    /// A successful output carrying `data`.
    pub fn success(data: JsonValue) -> (r: Self)
        ensures
            r.success,
            r.data@ == data@,
            r.error is None,
    {
        ToolOutput { success: true, data, error: None }
    }

    /// A failed output with the given message and no data.
    pub fn error(msg: &str) -> (r: Self)
        ensures
            !r.success,
            r.data@ == JsonSpec::Null,
            r.error matches Some(e) && e@ == msg@,
    {
        ToolOutput { success: false, data: JsonValue::Null, error: Some(crate::text::owned(msg)) }
    }
}

/// A tool as offered to MCP clients: name, description and input schema.
pub type McpTool = ToolDefinition;

/// Registry of the MCP tools.
pub struct ToolRegistry {
    pub tools: Vec<McpTool>,
}

impl ToolRegistry {
    /// An empty registry.
    pub fn new() -> (r: Self)
        ensures
            r.tools@.len() == 0,
    {
        ToolRegistry { tools: Vec::new() }
    }
}

/// The tools of all groups, group after group.
pub open spec fn all_tools(groups: Seq<Seq<(Seq<char>, Seq<char>, JsonSpec)>>) -> Seq<(Seq<char>, Seq<char>, JsonSpec)>
    decreases groups.len(),
{
    if groups.len() == 0 {
        Seq::empty()
    } else {
        all_tools(groups.drop_last()) + groups.last()
    }
}

/// The number of tools in all groups together.
pub open spec fn tool_count(groups: Seq<Seq<(Seq<char>, Seq<char>, JsonSpec)>>) -> nat
    decreases groups.len(),
{
    if groups.len() == 0 {
        0
    } else {
        tool_count(groups.drop_last()) + groups.last().len()
    }
}

/// Registering groups lists every tool of every group, group after group:
/// as many tools as the groups hold, and tool `j` of group `g` right after
/// the tools of the groups before it.
pub proof fn lemma_all_tools_layout(groups: Seq<Seq<(Seq<char>, Seq<char>, JsonSpec)>>)
    ensures
        all_tools(groups).len() == tool_count(groups),
        forall|g: int, j: int|
            0 <= g < groups.len() && 0 <= j < groups[g].len() ==> all_tools(groups)[tool_count(
                groups.take(g),
            ) + j] == #[trigger] groups[g][j],
    decreases groups.len(),
{
    if groups.len() > 0 {
        let init = groups.drop_last();
        lemma_all_tools_layout(init);
        assert forall|g: int, j: int|
            0 <= g < groups.len() && 0 <= j < groups[g].len() implies all_tools(groups)[tool_count(
            groups.take(g),
        ) + j] == #[trigger] groups[g][j] by {
            if g < groups.len() - 1 {
                assert(groups.take(g) =~= init.take(g));
                assert(init[g] == groups[g]);
                lemma_count_prefix_bound(init, g);
            } else {
                assert(groups.take(g) =~= init);
            }
        }
    }
}

/// The tools before group `g`, and group `g`'s own, fit within all of them.
proof fn lemma_count_prefix_bound(groups: Seq<Seq<(Seq<char>, Seq<char>, JsonSpec)>>, g: int)
    requires
        0 <= g < groups.len(),
    ensures
        tool_count(groups.take(g)) + groups[g].len() <= tool_count(groups),
    decreases groups.len(),
{
    if g < groups.len() - 1 {
        let init = groups.drop_last();
        assert(groups.take(g) =~= init.take(g));
        lemma_count_prefix_bound(init, g);
    } else {
        assert(groups.take(g) =~= groups.drop_last());
    }
}

/// The views of groups of tool definitions.
pub open spec fn group_views(groups: Seq<Vec<McpTool>>) -> Seq<Seq<(Seq<char>, Seq<char>, JsonSpec)>> {
    Seq::new(groups.len(), |i: int| tool_views(groups[i]@))
}

/// Register tools: the registry then holds the tools of every group, in
/// order, replacing what it held.
pub fn register_tools(registry: &mut ToolRegistry, groups: Vec<Vec<McpTool>>)
    ensures
        tool_views(final(registry).tools@) == all_tools(group_views(groups@)),
{
    let ghost gv = group_views(groups@);
    let n = groups.len();
    let mut groups = groups;
    let mut all: Vec<McpTool> = Vec::new();
    let mut i: usize = 0;
    assert(gv.take(0) =~= Seq::<Seq<(Seq<char>, Seq<char>, JsonSpec)>>::empty());
    assert(tool_views(all@) =~= all_tools(gv.take(0)));
    while i < n
        invariant
            i <= n,
            n == gv.len(),
            groups@.len() == n,
            forall|k: int| i <= k < n ==> #[trigger] tool_views(groups@[k]@) == gv[k],
            tool_views(all@) == all_tools(gv.take(i as int)),
        decreases n - i,
    {
        assert(gv.take(i + 1).drop_last() =~= gv.take(i as int));
        let ghost before = tool_views(all@);
        let ghost g = gv[i as int];
        let mut taken: Vec<McpTool> = Vec::new();
        std::mem::swap(&mut taken, &mut groups[i]);
        assert(tool_views(taken@) == g);
        all.append(&mut taken);
        assert(tool_views(all@) =~= before + g);
        i += 1;
    }
    assert(gv.take(n as int) =~= gv);
    registry.tools = all;
}


/// The tool groups of the server, in the order they are registered:
/// memory, experience, reflection, search, ingestor, agent, hypothesis,
/// exploration, knowledge, planner, workflow and skills.
pub open spec fn server_groups() -> Seq<Seq<(Seq<char>, Seq<char>, JsonSpec)>> {
    seq![
        crate::tools::memory::definitions::memory_tool_table(),
        crate::tools::plugins::experience_tool_table(),
        crate::tools::reflection::definitions::reflection_tool_table(),
        crate::tools::plugins::search_tool_table(),
        crate::tools::ingestor::definitions::ingestion_tool_table(),
        crate::tools::plugins::agent_tool_table(),
        crate::tools::hypothesis::definitions::hypothesis_tool_table(),
        crate::tools::exploration::definitions::exploration_tool_table(),
        crate::tools::plugins::knowledge_tool_table(),
        crate::tools::plugins::planner_tool_table(),
        crate::tools::plugins::workflow_tool_table(),
        crate::tools::skills::definitions::skills_tool_table(),
    ]
}

/// The tool groups of the server, in registration order; see
/// `server_groups`.
pub fn server_tool_groups() -> (r: Vec<Vec<ToolDefinition>>)
    ensures
        group_views(r@) == server_groups(),
{
    let mut g: Vec<Vec<ToolDefinition>> = Vec::new();
    g.push(crate::tools::memory::definitions::all());
    g.push(crate::tools::plugins::ExperienceTools::new().tools());
    g.push(crate::tools::reflection::definitions::all());
    g.push(crate::tools::plugins::SearchTools::new().tools());
    g.push(crate::tools::ingestor::definitions::all());
    g.push(crate::tools::plugins::AgentTools::new().tools());
    g.push(crate::tools::hypothesis::definitions::all());
    g.push(crate::tools::exploration::definitions::all());
    g.push(crate::tools::plugins::KnowledgeTools::new().tools());
    g.push(crate::tools::plugins::PlannerTools::new().tools());
    g.push(crate::tools::plugins::WorkflowTools::new().tools());
    g.push(crate::tools::skills::definitions::all());
    assert(group_views(g@) =~= server_groups());
    g
}

/// Register the server's tools: the registry then holds the tools of every
/// group of `server_groups`, group after group, whatever it held before,
/// so registering again leaves it the same.
pub fn register_server_tools(registry: &mut ToolRegistry)
    ensures
        tool_views(final(registry).tools@) == all_tools(server_groups()),
{
    let groups = server_tool_groups();
    register_tools(registry, groups);
}


/// The registered tools: a copy of the registry's, none without a registry.
pub fn get_tools(registry: Option<&ToolRegistry>) -> (r: Vec<McpTool>)
    ensures
        match registry {
            Some(reg) => tool_views(r@) == tool_views(reg.tools@),
            None => r@.len() == 0,
        },
{
    match registry {
        Some(reg) => {
            let mut out: Vec<McpTool> = Vec::new();
            let mut i: usize = 0;
            while i < reg.tools.len()
                invariant
                    i <= reg.tools@.len(),
                    tool_views(out@) == tool_views(reg.tools@).take(i as int),
                decreases reg.tools@.len() - i,
            {
                let t = &reg.tools[i];
                let ghost before = tool_views(out@);
                let copy = ToolDefinition {
                    name: t.name.clone(),
                    description: t.description.clone(),
                    input_schema: t.input_schema.clone(),
                };
                out.push(copy);
                assert(tool_views(out@) =~= before.push((t.name@, t.description@, t.input_schema@)));
                assert(tool_views(reg.tools@).take(i + 1) =~= tool_views(reg.tools@).take(i as int).push(tool_views(reg.tools@)[i as int]));
                i += 1;
            }
            assert(tool_views(reg.tools@).take(reg.tools@.len() as int) =~= tool_views(reg.tools@));
            out
        },
        None => Vec::new(),
    }
}

} // verus!
