//! What streaming one model response to the frontend decides at each event:
//! which event the frontend gets, and what is kept to be stored when the
//! stream ends or fails.

use vstd::prelude::*;

use crate::agent::{StreamEvent as ModelEvent, TokenUsage as ModelUsage};
use crate::protocol::model_response::{StreamEvent, TokenUsage};

verus! {

/// The usage reported to the frontend for the usage the model reported.
pub open spec fn reported_usage(usage: Option<ModelUsage>) -> Option<TokenUsage> {
    match usage {
        Some(u) => Some(
            TokenUsage {
                prompt_tokens: u.prompt_tokens,
                completion_tokens: u.completion_tokens,
                total_tokens: u.total_tokens,
            },
        ),
        None => None,
    }
}

/// The usage reported to the frontend for the usage the model reported.
pub fn report_usage(usage: Option<ModelUsage>) -> (r: Option<TokenUsage>)
    ensures
        r == reported_usage(usage),
{
    match usage {
        Some(u) => Some(
            TokenUsage {
                prompt_tokens: u.prompt_tokens,
                completion_tokens: u.completion_tokens,
                total_tokens: u.total_tokens,
            },
        ),
        None => None,
    }
}

/// The state of a response while it streams: the text received so far and
/// the usage of the completed response, once it completed.
pub struct ResponseRecorder {
    pub content: String,
    pub usage: Option<ModelUsage>,
}

impl ResponseRecorder {
    /// Nothing received yet.
    pub fn new() -> (r: Self)
        ensures
            r.content@ == Seq::<char>::empty(),
            r.usage is None,
    {
        ResponseRecorder { content: String::new(), usage: None }
    }

    /// Takes one event of the model's stream: text is kept and passed on,
    /// completion is passed on with its usage, which is kept; reasoning and
    /// tool-call fragments are neither kept nor passed on.
    pub fn step(&mut self, event: ModelEvent) -> (r: Option<StreamEvent>)
        ensures
            match event {
                ModelEvent::TextDelta { content } => {
                    &&& final(self).content@ == old(self).content@ + content@
                    &&& final(self).usage == old(self).usage
                    &&& r == Some(StreamEvent::OutputDelta { content })
                },
                ModelEvent::Completed { finish_reason, usage } => {
                    &&& final(self).content@ == old(self).content@
                    &&& final(self).usage == usage
                    &&& r == Some(
                        StreamEvent::Completed { finish_reason, usage: reported_usage(usage) },
                    )
                },
                _ => {
                    &&& final(self).content@ == old(self).content@
                    &&& final(self).usage == old(self).usage
                    &&& r is None
                },
            },
    {
        match event {
            ModelEvent::TextDelta { content } => {
                self.content.append(content.as_str());
                Some(StreamEvent::OutputDelta { content })
            },
            ModelEvent::Completed { finish_reason, usage } => {
                self.usage = usage;
                Some(StreamEvent::Completed { finish_reason, usage: report_usage(usage) })
            },
            _ => None,
        }
    }
}

} // verus!
