//! Tool execution pipeline: invocation, authorization, execution, result
//! and audit.

use vstd::prelude::*;
use crate::ids::{new_id, now_timestamp, instant_now, elapsed_millis};
use crate::text::owned;
use crate::json::JsonValue;
use crate::tools::registry::{ToolError, invoke_tool_with_auth, executed_reply};

verus! {

/// Tool invocation request.
#[derive(Debug, Clone)]
pub struct ToolInvocationRequest {
    /// Tool identifier.
    pub tool_id: String,
    /// Caller identifier.
    pub caller: String,
    /// Input parameters.
    pub params: JsonValue,
    /// Timeout in milliseconds.
    pub timeout_ms: u64,
    /// Correlation ID for tracing.
    pub correlation_id: String,
}

impl ToolInvocationRequest {
    /// A request with a 30 second timeout and a fresh correlation id.
    pub fn new(tool_id: &str, caller: &str, params: JsonValue) -> (r: Self)
        ensures
            r.tool_id@ == tool_id@,
            r.caller@ == caller@,
            r.params@ == params@,
            r.timeout_ms == 30_000,
            r.correlation_id@.len() == 36,
    {
        ToolInvocationRequest {
            tool_id: owned(tool_id),
            caller: owned(caller),
            params,
            timeout_ms: 30_000,
            correlation_id: new_id(),
        }
    }
}

/// Tool execution result with audit information.
#[derive(Debug, Clone)]
pub struct ToolExecutionResult {
    /// Tool identifier.
    pub tool_id: String,
    /// Caller identifier.
    pub caller: String,
    /// Whether execution succeeded.
    pub success: bool,
    /// Result output.
    pub output: Option<JsonValue>,
    /// Error message if failed.
    pub error: Option<String>,
    /// Execution duration in milliseconds.
    pub duration_ms: u64,
    /// Audit entry ID.
    pub audit_id: String,
    /// Correlation ID.
    pub correlation_id: String,
}

/// Tool audit entry for observability.
#[derive(Debug, Clone)]
pub struct ToolAuditEntry {
    /// Audit entry ID.
    pub audit_id: String,
    /// Tool identifier.
    pub tool_id: String,
    /// Caller identifier.
    pub caller: String,
    /// Action performed.
    pub action: String,
    /// Timestamp.
    pub timestamp: i64,
    /// Success status.
    pub success: bool,
    /// Correlation ID.
    pub correlation_id: String,
}

impl ToolAuditEntry {
    /// Create a new audit entry with a fresh id and the current time.
    pub fn new(tool_id: &str, caller: &str, action: &str, success: bool, correlation_id: &str) -> (e:
        Self)
        ensures
            e.audit_id@.len() == 36,
            e.tool_id@ == tool_id@,
            e.caller@ == caller@,
            e.action@ == action@,
            e.success == success,
            e.correlation_id@ == correlation_id@,
    {
        ToolAuditEntry {
            audit_id: new_id(),
            tool_id: owned(tool_id),
            caller: owned(caller),
            action: owned(action),
            timestamp: now_timestamp(),
            success,
            correlation_id: owned(correlation_id),
        }
    }
}

/// The name of a tool error.
fn tool_error_name(e: &ToolError) -> (r: String)
    ensures
        e is NotFound ==> r@ == "NotFound"@,
{
    match e {
        ToolError::NotFound => owned("NotFound"),
        ToolError::RegistrationFailed(_) => owned("RegistrationFailed"),
    }
}

/// What an executed request yields: the request's tool, caller and
/// correlation id, success with the tool's answer, and a fresh audit id.
pub open spec fn executed(request: ToolInvocationRequest, r: ToolExecutionResult) -> bool {
    &&& r.tool_id@ == request.tool_id@
    &&& r.caller@ == request.caller@
    &&& r.correlation_id@ == request.correlation_id@
    &&& r.success
    &&& r.output matches Some(v) && v@ == executed_reply(request.tool_id@)
    &&& r.error is None
    &&& r.audit_id@.len() == 36
}

/// Execute a tool invocation: authorization, execution, audit, result.
/// The duration is measured on the clock and not described.
pub fn execute_tool_pipeline(request: &ToolInvocationRequest) -> (r: ToolExecutionResult)
    ensures
        executed(*request, r),
{
    let authorized = crate::tools::permissions::is_authorized(request.tool_id.as_str(), request.caller.as_str());
    if !authorized {
        let audit = ToolAuditEntry::new(request.tool_id.as_str(), request.caller.as_str(), "invoke_denied", false, request.correlation_id.as_str());
        return ToolExecutionResult {
            tool_id: request.tool_id.clone(),
            caller: request.caller.clone(),
            success: false,
            output: None,
            error: Some(owned("Authorization denied")),
            duration_ms: 0,
            audit_id: audit.audit_id,
            correlation_id: request.correlation_id.clone(),
        };
    }
    let start = instant_now();
    let invocation_result = invoke_tool_with_auth(request.tool_id.as_str(), request.caller.as_str());
    let duration = elapsed_millis(&start);
    let audit = ToolAuditEntry::new(request.tool_id.as_str(), request.caller.as_str(), "invoke", invocation_result.is_ok(), request.correlation_id.as_str());
    match invocation_result {
        Ok(output) => ToolExecutionResult {
            tool_id: request.tool_id.clone(),
            caller: request.caller.clone(),
            success: true,
            output: Some(output),
            error: None,
            duration_ms: duration,
            audit_id: audit.audit_id,
            correlation_id: request.correlation_id.clone(),
        },
        Err(e) => ToolExecutionResult {
            tool_id: request.tool_id.clone(),
            caller: request.caller.clone(),
            success: false,
            output: None,
            error: Some(tool_error_name(&e)),
            duration_ms: duration,
            audit_id: audit.audit_id,
            correlation_id: request.correlation_id.clone(),
        },
    }
}

/// Tool lifecycle: a new request for the tool, executed through the pipeline.
pub fn tool_lifecycle(tool_id: &str, caller: &str, params: JsonValue) -> (r: ToolExecutionResult)
    ensures
        r.tool_id@ == tool_id@,
        r.caller@ == caller@,
        r.correlation_id@.len() == 36,
        r.success,
        r.output matches Some(v) && v@ == executed_reply(tool_id@),
        r.error is None,
{
    let request = ToolInvocationRequest::new(tool_id, caller, params);
    execute_tool_pipeline(&request)
}

/// Run a test request through the pipeline and audit it; returns whether
/// it succeeded and whether the audit recorded success (both true).
pub fn reference_tool_execution_pipeline() -> (r: (bool, bool))
    ensures
        r == (true, true),
{
    let mut params: Vec<(String, JsonValue)> = Vec::new();
    let one = JsonValue::Number(crate::json::JsonNumber { text: owned("1"), as_i64: Some(1i64), f64_text: owned("1") });
    params.push(crate::tools::plugins::member("param", one));
    let request = ToolInvocationRequest::new("test-tool", "test-caller", crate::tools::plugins::json_object(params));
    let result = execute_tool_pipeline(&request);
    let audit = ToolAuditEntry::new("test-tool", "test-caller", "test", result.success, "corr-1");
    (result.success, audit.success)
}

} // verus!
