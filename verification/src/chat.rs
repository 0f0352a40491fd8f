//! Chat data model: models, roles, messages, completions and the
//! incremental event records produced while streaming.

use vstd::prelude::*;
use crate::error::GrokError;
use crate::strutil::lower_of;
use crate::strutil::lower_str;
use crate::strutil::str_eq;

verus! {

/// Available models.
#[derive(Debug, Clone, Copy, PartialEq, Eq, Structural)]
pub enum Model {
    /// Fast-reasoning generation.
    Grok4FastReasoning,
    /// Standard fourth generation.
    Grok4,
    /// Legacy third generation.
    Grok3,
    /// Legacy second generation.
    Grok2,
    /// Legacy first generation.
    Grok1,
}

impl Model {
    /// The wire identifier of the model.
    pub open spec fn spec_str(&self) -> Seq<char> {
        match self {
            Model::Grok4FastReasoning => "grok-4-fast-reasoning"@,
            Model::Grok4 => "grok-4"@,
            Model::Grok3 => "grok-3"@,
            Model::Grok2 => "grok-2"@,
            Model::Grok1 => "grok-1"@,
        }
    }

    /// Get the model string identifier.
    pub fn as_str(&self) -> (r: &'static str)
        ensures
            r@ == self.spec_str(),
    {
        match self {
            Model::Grok4FastReasoning => "grok-4-fast-reasoning",
            Model::Grok4 => "grok-4",
            Model::Grok3 => "grok-3",
            Model::Grok2 => "grok-2",
            Model::Grok1 => "grok-1",
        }
    }

    /// The model whose wire identifier is the lowercase form of `s`,
    /// if there is one.
    pub open spec fn spec_from_str(s: Seq<char>) -> Option<Model> {
        let low = lower_of(s);
        if low == "grok-4-fast-reasoning"@ {
            Some(Model::Grok4FastReasoning)
        } else if low == "grok-4"@ {
            Some(Model::Grok4)
        } else if low == "grok-3"@ {
            Some(Model::Grok3)
        } else if low == "grok-2"@ {
            Some(Model::Grok2)
        } else if low == "grok-1"@ {
            Some(Model::Grok1)
        } else {
            None
        }
    }

    /// Parse a model identifier, ignoring letter case.
    pub fn from_str(s: &str) -> (r: Result<Model, GrokError>)
        ensures
            match Model::spec_from_str(s@) {
                Some(m) => r matches Ok(rm) && rm == m,
                None => r matches Err(e) && e is InvalidConfig,
            },
    {
        let low = lower_str(s);
        if str_eq(low.as_str(), "grok-4-fast-reasoning") {
            Ok(Model::Grok4FastReasoning)
        } else if str_eq(low.as_str(), "grok-4") {
            Ok(Model::Grok4)
        } else if str_eq(low.as_str(), "grok-3") {
            Ok(Model::Grok3)
        } else if str_eq(low.as_str(), "grok-2") {
            Ok(Model::Grok2)
        } else if str_eq(low.as_str(), "grok-1") {
            Ok(Model::Grok1)
        } else {
            let mut m = String::from_str("Unknown model: ");
            m.append(s);
            m.append(
                ". Valid models are: grok-4-fast-reasoning, grok-4, grok-3, grok-2, grok-1",
            );
            Err(GrokError::InvalidConfig(m))
        }
    }
}

/// Message roles in a conversation.
#[derive(Debug, Clone, Copy, PartialEq, Eq, Structural)]
pub enum Role {
    /// System instructions.
    System,
    /// End-user input.
    User,
    /// Assistant output.
    Assistant,
    /// Tool execution result.
    Tool,
}

/// A message in a conversation.
#[derive(Debug, Clone)]
pub struct Message {
    /// The role of the message sender.
    pub role: Role,
    /// The content of the message.
    pub content: String,
    /// Tool calls made by the assistant, if any.
    pub tool_calls: Option<Vec<ToolCall>>,
    /// Tool call this message answers, for tool results.
    pub tool_call_id: Option<String>,
    /// Name of the tool, for tool results.
    pub name: Option<String>,
}

impl Message {
    /// Create a user message.
    pub fn user(content: &str) -> (m: Message)
        ensures
            m.role == Role::User,
            m.content@ == content@,
            m.tool_calls is None,
            m.tool_call_id is None,
            m.name is None,
    {
        Message {
            role: Role::User,
            content: content.to_owned(),
            tool_calls: None,
            tool_call_id: None,
            name: None,
        }
    }

    /// Create a system message.
    pub fn system(content: &str) -> (m: Message)
        ensures
            m.role == Role::System,
            m.content@ == content@,
            m.tool_calls is None,
            m.tool_call_id is None,
            m.name is None,
    {
        Message {
            role: Role::System,
            content: content.to_owned(),
            tool_calls: None,
            tool_call_id: None,
            name: None,
        }
    }

    /// Create an assistant message.
    pub fn assistant(content: &str) -> (m: Message)
        ensures
            m.role == Role::Assistant,
            m.content@ == content@,
            m.tool_calls is None,
            m.tool_call_id is None,
            m.name is None,
    {
        Message {
            role: Role::Assistant,
            content: content.to_owned(),
            tool_calls: None,
            tool_call_id: None,
            name: None,
        }
    }

    /// Create a tool result message.
    pub fn tool(content: &str, tool_call_id: &str, name: &str) -> (m: Message)
        ensures
            m.role == Role::Tool,
            m.content@ == content@,
            m.tool_calls is None,
            m.tool_call_id matches Some(t) && t@ == tool_call_id@,
            m.name matches Some(n) && n@ == name@,
    {
        Message {
            role: Role::Tool,
            content: content.to_owned(),
            tool_calls: None,
            tool_call_id: Some(tool_call_id.to_owned()),
            name: Some(name.to_owned()),
        }
    }

    /// Create a builder for constructing messages with custom options.
    pub fn builder() -> (b: MessageBuilder)
        ensures
            b.role is None,
            b.content is None,
            b.tool_calls is None,
            b.tool_call_id is None,
            b.name is None,
    {
        MessageBuilder::new()
    }
}

/// Builder for creating messages with custom options.
#[derive(Debug)]
pub struct MessageBuilder {
    /// The role to give the message.
    pub role: Option<Role>,
    /// The content to give the message.
    pub content: Option<String>,
    /// Tool calls to attach.
    pub tool_calls: Option<Vec<ToolCall>>,
    /// Tool call ID to attach.
    pub tool_call_id: Option<String>,
    /// Tool name to attach.
    pub name: Option<String>,
}

impl MessageBuilder {
    /// Create a new message builder.
    pub fn new() -> (b: MessageBuilder)
        ensures
            b.role is None,
            b.content is None,
            b.tool_calls is None,
            b.tool_call_id is None,
            b.name is None,
    {
        MessageBuilder {
            role: None,
            content: None,
            tool_calls: None,
            tool_call_id: None,
            name: None,
        }
    }

    /// Set the role.
    pub fn role(self, role: Role) -> (b: MessageBuilder)
        ensures
            b == (MessageBuilder { role: Some(role), ..self }),
    {
        MessageBuilder { role: Some(role), ..self }
    }

    /// Set the content.
    pub fn content(self, content: &str) -> (b: MessageBuilder)
        ensures
            b.content matches Some(c) && c@ == content@,
            b.role == self.role,
            b.tool_calls == self.tool_calls,
            b.tool_call_id == self.tool_call_id,
            b.name == self.name,
    {
        MessageBuilder { content: Some(content.to_owned()), ..self }
    }

    /// Set tool calls.
    pub fn tool_calls(self, tool_calls: Vec<ToolCall>) -> (b: MessageBuilder)
        ensures
            b == (MessageBuilder { tool_calls: Some(tool_calls), ..self }),
    {
        MessageBuilder { tool_calls: Some(tool_calls), ..self }
    }

    /// Set the tool call ID.
    pub fn tool_call_id(self, tool_call_id: &str) -> (b: MessageBuilder)
        ensures
            b.tool_call_id matches Some(t) && t@ == tool_call_id@,
            b.role == self.role,
            b.content == self.content,
            b.tool_calls == self.tool_calls,
            b.name == self.name,
    {
        MessageBuilder { tool_call_id: Some(tool_call_id.to_owned()), ..self }
    }

    /// Set the tool name.
    pub fn name(self, name: &str) -> (b: MessageBuilder)
        ensures
            b.name matches Some(n) && n@ == name@,
            b.role == self.role,
            b.content == self.content,
            b.tool_calls == self.tool_calls,
            b.tool_call_id == self.tool_call_id,
    {
        MessageBuilder { name: Some(name.to_owned()), ..self }
    }

    /// Build the message; the role and the content are required.
    pub fn build(self) -> (r: Result<Message, GrokError>)
        ensures
            self.role is None ==> (r matches Err(GrokError::InvalidConfig(m)) && m@
                == "Message role is required"@),
            self.role is Some && self.content is None ==> (r matches Err(
                GrokError::InvalidConfig(m),
            ) && m@ == "Message content is required"@),
            self.role is Some && self.content is Some ==> (r matches Ok(msg) && msg
                == (Message {
                role: self.role->0,
                content: self.content->0,
                tool_calls: self.tool_calls,
                tool_call_id: self.tool_call_id,
                name: self.name,
            })),
    {
        let role = match self.role {
            Some(role) => role,
            None => {
                return Err(
                    GrokError::InvalidConfig(String::from_str("Message role is required")),
                );
            },
        };
        let content = match self.content {
            Some(content) => content,
            None => {
                return Err(
                    GrokError::InvalidConfig(String::from_str("Message content is required")),
                );
            },
        };
        Ok(
            Message {
                role,
                content,
                tool_calls: self.tool_calls,
                tool_call_id: self.tool_call_id,
                name: self.name,
            },
        )
    }
}

/// Tool call made by the assistant.
#[derive(Debug, Clone)]
pub struct ToolCall {
    /// Unique ID for this tool call.
    pub id: String,
    /// The function to call.
    pub function: ToolFunction,
}

/// Function named by a tool call.
#[derive(Debug, Clone)]
pub struct ToolFunction {
    /// Name of the function to call.
    pub name: String,
    /// Arguments to pass to the function, as serialized structured data.
    pub arguments: String,
}

/// Tool definition offered to the service.
#[derive(Debug, Clone)]
pub struct Tool {
    /// Kind of tool; only functions are supported.
    pub tool_type: String,
    /// Function specification.
    pub function: ToolSpec,
}

/// Function specification for a tool definition.
#[derive(Debug, Clone)]
pub struct ToolSpec {
    /// Name of the function.
    pub name: String,
    /// Description of what the function does.
    pub description: Option<String>,
    /// Parameter schema.
    pub parameters: Option<serde_json::Value>,
}

/// Token usage reported for a completion.
#[derive(Debug, Clone, Copy, PartialEq, Eq, Structural)]
pub struct Usage {
    /// Number of prompt tokens.
    pub prompt_tokens: u32,
    /// Number of completion tokens.
    pub completion_tokens: u32,
    /// Total number of tokens.
    pub total_tokens: u32,
}

/// A choice within a buffered completion response.
#[derive(Debug, Clone)]
pub struct Choice {
    /// Index of the choice.
    pub index: u32,
    /// The message content.
    pub message: Message,
    /// Finish reason, if reported.
    pub finish_reason: Option<String>,
}

/// A buffered completion response, already decoded into plain values.
#[derive(Debug, Clone)]
pub struct ChatResponse {
    /// Unique ID for the completion.
    pub id: String,
    /// Model used.
    pub model: String,
    /// Usage statistics, if reported.
    pub usage: Option<Usage>,
    /// Response choices.
    pub choices: Vec<Choice>,
}

/// Flattened chat completion result: the first choice of a response.
#[derive(Debug, Clone)]
pub struct ChatCompletion {
    /// Unique ID for the completion.
    pub id: String,
    /// Model used.
    pub model: String,
    /// Usage statistics, if reported.
    pub usage: Option<Usage>,
    /// The response message.
    pub message: Message,
    /// Finish reason, if reported.
    pub finish_reason: Option<String>,
}

/// One decoded streaming event record.
#[derive(Debug, Clone)]
pub struct ChatChunk {
    /// Unique ID for the completion.
    pub id: String,
    /// Object type.
    pub object: String,
    /// Timestamp of creation.
    pub created: u64,
    /// Model used.
    pub model: String,
    /// Incremental choices.
    pub choices: Vec<ChunkChoice>,
}

/// A choice within a streaming event record.
#[derive(Debug, Clone)]
pub struct ChunkChoice {
    /// Index of the choice.
    pub index: u32,
    /// Incremental content.
    pub delta: MessageDelta,
    /// Finish reason, if reported.
    pub finish_reason: Option<String>,
}

/// Incremental message update carried by a streaming event.
#[derive(Debug, Clone)]
pub struct MessageDelta {
    /// Role marker, present on the first event of a reply.
    pub role: Option<Role>,
    /// Content fragment.
    pub content: Option<String>,
    /// Tool-call fragments.
    pub tool_calls: Option<Vec<ToolCallDelta>>,
}

/// A tool-call fragment within a streaming event.
#[derive(Debug, Clone)]
pub struct ToolCallDelta {
    /// Index correlating fragments of the same logical tool call.
    pub index: u32,
    /// ID fragment.
    pub id: Option<String>,
    /// Function fragment.
    pub function: Option<ToolFunctionDelta>,
}

/// A function fragment within a tool-call fragment.
#[derive(Debug, Clone)]
pub struct ToolFunctionDelta {
    /// Name fragment.
    pub name: Option<String>,
    /// Arguments fragment.
    pub arguments: Option<String>,
}

} // verus!
