//! Tool registration contracts, authorized invocation and isolated execution.

use vstd::prelude::*;
use crate::text::owned;
use crate::json::{JsonValue, JsonSpec};
use crate::tools::plugins::{json_object, json_string, member};

verus! {

/// A registered tool contract.
#[derive(Debug, Clone)]
pub struct ToolContract {
    /// Tool name.
    pub name: String,
    /// Human-readable description.
    pub description: String,
    /// Input schema (JSON Schema).
    pub input_schema: JsonValue,
    /// Output schema (JSON Schema).
    pub output_schema: JsonValue,
    /// Tool version.
    pub version: String,
}

/// Tool error types.
#[derive(Debug, Clone)]
pub enum ToolError {
    RegistrationFailed(String),
    NotFound,
}

/// Register a new tool. Every contract is accepted under the id "tool-id".
pub fn register_tool(contract: ToolContract) -> (r: Result<String, ToolError>)
    ensures
        r matches Ok(id) && id@ == "tool-id"@,
{
    Ok(owned("tool-id"))
}

/// Limits for running a function in isolation.
#[derive(Debug, Clone, Copy)]
pub struct IsolationContext {
    /// Time limit in milliseconds.
    pub timeout_ms: u64,
}

/// Run an execution function in isolation: the function is called once
/// and its result is returned unchanged.
pub fn run_isolated<T, F: FnOnce() -> T>(ctx: &IsolationContext, f: F) -> (r: T)
    requires
        f.requires(()),
    ensures
        f.ensures((), r),
{
    f()
}

/// The answer of an executed tool: `{"status": "executed", "tool": tool}`.
pub open spec fn executed_reply(tool: Seq<char>) -> JsonSpec {
    JsonSpec::Object(seq![("status"@, JsonSpec::Str("executed"@)), ("tool"@, JsonSpec::Str(tool))])
}

/// Invoke a tool after checking that the caller is authorized; an
/// unauthorized call fails with `NotFound`. Since every caller is currently
/// authorized, every call is executed.
pub fn invoke_tool_with_auth(tool: &str, caller: &str) -> (r: Result<JsonValue, ToolError>)
    ensures
        r matches Ok(v) && v@ == executed_reply(tool@),
{
    if !crate::tools::permissions::is_authorized(tool, caller) {
        return Err(ToolError::NotFound);
    }
    let mut ms: Vec<(String, JsonValue)> = Vec::new();
    ms.push(member("status", json_string("executed")));
    ms.push(member("tool", json_string(tool)));
    let r = json_object(ms);
    assert(crate::json::member_views(ms@) =~= seq![("status"@, JsonSpec::Str("executed"@)), ("tool"@, JsonSpec::Str(tool@))]);
    Ok(r)
}

/// Register a test contract and return the id it got ("tool-id").
pub fn reference_tool_registry_contracts() -> (r: String)
    ensures
        r@ == "tool-id"@,
{
    let object = json_string("object");
    let mut ms: Vec<(String, JsonValue)> = Vec::new();
    ms.push(member("type", object));
    let schema = json_object(ms);
    let contract = ToolContract {
        name: owned("test-tool"),
        description: owned("A test tool"),
        input_schema: schema.clone(),
        output_schema: schema,
        version: owned("1.0.0"),
    };
    match register_tool(contract) {
        Ok(id) => id,
        Err(_) => String::new(),
    }
}

} // verus!
