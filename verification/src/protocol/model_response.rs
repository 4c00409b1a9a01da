use vstd::prelude::*;

verus! {

/// A request to stream one model response.
#[derive(Debug, Clone, PartialEq, Eq)]
pub struct StreamRequest {
    pub provider_id: String,
    pub model_id: String,
    pub content: String,
}

/// What the frontend receives while a response streams.
#[derive(Debug, Clone, PartialEq, Eq)]
pub enum StreamEvent {
    OutputDelta { content: String },
    Completed { finish_reason: Option<String>, usage: Option<TokenUsage> },
}

#[derive(Debug, Clone, Copy, PartialEq, Eq)]
pub struct TokenUsage {
    pub prompt_tokens: u64,
    pub completion_tokens: u64,
    pub total_tokens: u64,
}

} // verus!
