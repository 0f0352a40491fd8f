//! Tool-calling data model: declarations offered to the service and the
//! records exchanged when the assistant asks for a tool to run.
//!
//! Executing a tool (schema validation and the user-supplied callback)
//! happens outside this crate; the types here carry the plain data.

use vstd::prelude::*;

verus! {

/// Declares `serde_json::Value` so tool parameter schemas can be carried
/// through the library; the value itself is opaque here.
#[verifier::external_type_specification]
#[verifier::external_body]
pub struct ExValue(serde_json::Value);

/// Relies on serde_json::Value::clone producing a copy of the value; the
/// copy is opaque here, so nothing further is assumed of it.
pub assume_specification[ <serde_json::Value as core::clone::Clone>::clone ](
    v: &serde_json::Value,
) -> serde_json::Value;

/// Tool specification for function calling.
#[derive(Debug, Clone)]
pub struct ToolSpec {
    /// Name of the tool.
    pub name: String,
    /// Description of what the tool does.
    pub description: String,
    /// Parameter schema.
    pub parameters: serde_json::Value,
}

/// Tool definition for requests.
#[derive(Debug, Clone)]
pub struct Tool {
    /// Kind of tool; only functions are supported.
    pub tool_type: String,
    /// Function specification.
    pub function: ToolSpec,
}

impl Tool {
    /// Create a new tool definition.
    pub fn new(name: &str, description: &str, parameters: serde_json::Value) -> (t: Tool)
        ensures
            t.tool_type@ == "function"@,
            t.function.name@ == name@,
            t.function.description@ == description@,
    {
        Tool {
            tool_type: String::from_str("function"),
            function: ToolSpec {
                name: name.to_owned(),
                description: description.to_owned(),
                parameters,
            },
        }
    }
}

/// Tool call made by the assistant.
#[derive(Debug, Clone)]
pub struct ToolCall {
    /// Unique ID for this tool call.
    pub id: String,
    /// The function to call.
    pub function: ToolFunction,
}

/// Function named by a tool call.
#[derive(Debug, Clone)]
pub struct ToolFunction {
    /// Name of the function to call.
    pub name: String,
    /// Arguments to pass to the function, as serialized structured data.
    pub arguments: String,
}

/// Result of a tool execution.
#[derive(Debug, Clone)]
pub struct ToolResult {
    /// ID of the tool call this result answers.
    pub tool_call_id: String,
    /// The result content.
    pub content: String,
}

impl ToolResult {
    /// Pair a tool call with the content its execution produced.
    pub fn new(tool_call_id: &str, content: String) -> (r: ToolResult)
        ensures
            r.tool_call_id@ == tool_call_id@,
            r.content == content,
    {
        ToolResult { tool_call_id: tool_call_id.to_owned(), content }
    }
}

} // verus!
