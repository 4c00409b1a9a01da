//! The agent's conversation model: messages, tool calls, completion
//! requests and the events that a streamed completion yields.

pub mod openai;
pub mod skills;
pub mod tools;

use vstd::prelude::*;

use crate::protocol::model_provider::ReasoningEffort as ProviderReasoningEffort;

verus! {

/// One message of the conversation sent to a model.
#[derive(Debug, Clone, PartialEq, Eq)]
pub struct Message {
    pub role: Role,
    pub content: String,
    pub tool_calls: Vec<ToolCall>,
    pub tool_call_id: Option<String>,
    pub reasoning_content: Option<String>,
}

impl Message {
    /// A plain text message with the given role.
    pub fn text(role: Role, content: String) -> (m: Self)
        ensures
            m.role == role,
            m.content == content,
            m.tool_calls@.len() == 0,
            m.tool_call_id is None,
            m.reasoning_content is None,
    {
        Message {
            role,
            content,
            tool_calls: Vec::new(),
            tool_call_id: None,
            reasoning_content: None,
        }
    }

    /// An assistant message that requests tool calls.
    pub fn assistant_tool_calls(
        content: String,
        reasoning_content: Option<String>,
        tool_calls: Vec<ToolCall>,
    ) -> (m: Self)
        ensures
            m.role == Role::Assistant,
            m.content == content,
            m.tool_calls == tool_calls,
            m.tool_call_id is None,
            m.reasoning_content == reasoning_content,
    {
        Message { role: Role::Assistant, content, tool_calls, tool_call_id: None, reasoning_content }
    }

    /// The result of one tool call, answering the call with that id.
    pub fn tool(tool_call_id: String, content: String) -> (m: Self)
        ensures
            m.role == Role::Tool,
            m.content == content,
            m.tool_calls@.len() == 0,
            m.tool_call_id == Some(tool_call_id),
            m.reasoning_content is None,
    {
        Message {
            role: Role::Tool,
            content,
            tool_calls: Vec::new(),
            tool_call_id: Some(tool_call_id),
            reasoning_content: None,
        }
    }
}

#[derive(Debug, Clone, Copy, PartialEq, Eq)]
pub enum Role {
    System,
    User,
    Assistant,
    Tool,
}

/// A tool call that a model requested.
#[derive(Debug, Clone, PartialEq, Eq)]
pub struct ToolCall {
    pub id: String,
    pub kind: ToolCallType,
    pub function: ToolCallFunction,
}

#[derive(Debug, Clone, Copy, PartialEq, Eq)]
pub enum ToolCallType {
    Function,
}

#[derive(Debug, Clone, PartialEq, Eq)]
pub struct ToolCallFunction {
    pub name: String,
    pub arguments: String,
}

/// A tool offered to a model; `input_schema` is the JSON Schema of its
/// arguments, as JSON text.
#[derive(Debug, Clone, PartialEq, Eq)]
pub struct ToolDefinition {
    pub name: String,
    pub description: String,
    pub input_schema: String,
}

#[derive(Debug, Clone, Copy, PartialEq, Eq)]
pub enum ThinkingMode {
    Enabled,
    Disabled,
}

/// How much reasoning a model is asked to spend (`Off`: none at all).
#[derive(Debug, Clone, Copy, PartialEq, Eq)]
pub enum ReasoningEffort {
    Off,
    Minimal,
    Low,
    Medium,
    High,
    XHigh,
    Max,
}

pub open spec fn reasoning_effort_from_provider(effort: ProviderReasoningEffort) -> ReasoningEffort {
    match effort {
        ProviderReasoningEffort::Off => ReasoningEffort::Off,
        ProviderReasoningEffort::Minimal => ReasoningEffort::Minimal,
        ProviderReasoningEffort::Low => ReasoningEffort::Low,
        ProviderReasoningEffort::Medium => ReasoningEffort::Medium,
        ProviderReasoningEffort::High => ReasoningEffort::High,
        ProviderReasoningEffort::XHigh => ReasoningEffort::XHigh,
        ProviderReasoningEffort::Max => ReasoningEffort::Max,
    }
}

impl From<ProviderReasoningEffort> for ReasoningEffort {
    fn from(effort: ProviderReasoningEffort) -> (r: Self) {
        match effort {
            ProviderReasoningEffort::Off => ReasoningEffort::Off,
            ProviderReasoningEffort::Minimal => ReasoningEffort::Minimal,
            ProviderReasoningEffort::Low => ReasoningEffort::Low,
            ProviderReasoningEffort::Medium => ReasoningEffort::Medium,
            ProviderReasoningEffort::High => ReasoningEffort::High,
            ProviderReasoningEffort::XHigh => ReasoningEffort::XHigh,
            ProviderReasoningEffort::Max => ReasoningEffort::Max,
        }
    }
}

impl vstd::std_specs::convert::FromSpecImpl<ProviderReasoningEffort> for ReasoningEffort {
    open spec fn obeys_from_spec() -> bool {
        true
    }

    open spec fn from_spec(effort: ProviderReasoningEffort) -> ReasoningEffort {
        reasoning_effort_from_provider(effort)
    }
}

/// A request for one model completion.
#[derive(Debug, Clone, PartialEq, Eq)]
pub struct CompletionRequest {
    pub model: String,
    pub messages: Vec<Message>,
    pub thinking: Option<ThinkingMode>,
    pub reasoning_effort: Option<ReasoningEffort>,
    pub tools: Vec<ToolDefinition>,
}

impl CompletionRequest {
    /// A request without thinking mode, reasoning effort or tools.
    pub fn new(model: String, messages: Vec<Message>) -> (r: Self)
        ensures
            r.model == model,
            r.messages == messages,
            r.thinking is None,
            r.reasoning_effort is None,
            r.tools@.len() == 0,
    {
        CompletionRequest {
            model,
            messages,
            thinking: None,
            reasoning_effort: None,
            tools: Vec::new(),
        }
    }
}

#[derive(Debug, Clone, Copy, PartialEq, Eq)]
pub struct TokenUsage {
    pub prompt_tokens: u64,
    pub completion_tokens: u64,
    pub total_tokens: u64,
}

/// A completed, non-streamed model response.
#[derive(Debug, Clone, PartialEq, Eq)]
pub struct Completion {
    pub content: Option<String>,
    pub reasoning_content: Option<String>,
    pub finish_reason: Option<String>,
    pub usage: Option<TokenUsage>,
}

/// One event of a streamed model response.
#[derive(Debug, Clone, PartialEq, Eq)]
pub enum StreamEvent {
    ReasoningDelta { content: String },
    TextDelta { content: String },
    ToolCallDelta { index: usize, id: Option<String>, name: Option<String>, arguments: String },
    Completed { finish_reason: Option<String>, usage: Option<TokenUsage> },
}

} // verus!
