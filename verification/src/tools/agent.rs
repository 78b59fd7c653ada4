//! Inputs of the agent tools.

use vstd::prelude::*;

verus! {

/// Tool input for getting workflow rules (MUST be called first)
#[derive(Debug)]
pub struct GetWorkflowInput {
    pub purpose: Option<String>,
}

/// Tool input for listing available tools
#[derive(Debug)]
pub struct ListToolsInput {
    pub filter: Option<String>,
}

/// Tool input for getting tool details
#[derive(Debug)]
pub struct GetToolInput {
    pub name: String,
}

/// Tool input for connecting to an MCP server
#[derive(Debug)]
pub struct ConnectMcpServerInput {
    pub name: String,
    pub command: String,
    pub args: Option<Vec<String>>,
}

/// Tool input for calling an MCP tool
#[derive(Debug)]
pub struct CallMcpToolInput {
    pub tool_name: String,
    /// JSON-encoded arguments as a string (e.g., "{\"key\": \"value\"}")
    pub arguments: Option<String>,
}

} // verus!
