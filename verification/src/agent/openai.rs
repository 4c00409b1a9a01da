//! The OpenAI-compatible chat completion protocol: the request body built
//! from a completion request, the mapping of streamed chunks to stream
//! events, and the mapping of failed responses to model errors.

use std::collections::VecDeque;

use vstd::prelude::*;

use crate::agent::{
    Completion, CompletionRequest, Message, ReasoningEffort, StreamEvent, ThinkingMode,
    TokenUsage, ToolDefinition,
};
use crate::errors::ModelError;
use crate::text::{chars_eq, chars_of, concat_str, trim, trim_chars};

verus! {

/// The body of a chat completion request.
#[derive(Debug, Clone, PartialEq, Eq)]
pub struct ChatCompletionRequest {
    pub model: String,
    pub messages: Vec<Message>,
    pub stream: bool,
    pub stream_options: Option<StreamOptions>,
    pub thinking: Option<Thinking>,
    pub reasoning_effort: Option<ReasoningEffortValue>,
    pub tools: Vec<Tool>,
}

#[derive(Debug, Clone, PartialEq, Eq)]
pub struct Tool {
    pub kind: &'static str,
    pub function: FunctionDefinition,
}

/// A function tool; `parameters` is its JSON Schema as JSON text.
#[derive(Debug, Clone, PartialEq, Eq)]
pub struct FunctionDefinition {
    pub name: String,
    pub description: String,
    pub parameters: String,
}

#[derive(Debug, Clone, Copy, PartialEq, Eq)]
pub struct StreamOptions {
    pub include_usage: bool,
}

#[derive(Debug, Clone, Copy, PartialEq, Eq)]
pub struct Thinking {
    pub kind: ThinkingModeValue,
}

#[derive(Debug, Clone, Copy, PartialEq, Eq)]
pub enum ThinkingModeValue {
    Enabled,
    Disabled,
}

/// The wire value of a reasoning effort (`Off` is sent as `none`).
#[derive(Debug, Clone, Copy, PartialEq, Eq)]
pub enum ReasoningEffortValue {
    Off,
    Minimal,
    Low,
    Medium,
    High,
    XHigh,
    Max,
}

pub open spec fn thinking_of(mode: ThinkingMode) -> Thinking {
    Thinking {
        kind: match mode {
            ThinkingMode::Enabled => ThinkingModeValue::Enabled,
            ThinkingMode::Disabled => ThinkingModeValue::Disabled,
        },
    }
}

pub open spec fn effort_value_of(effort: ReasoningEffort) -> ReasoningEffortValue {
    match effort {
        ReasoningEffort::Off => ReasoningEffortValue::Off,
        ReasoningEffort::Minimal => ReasoningEffortValue::Minimal,
        ReasoningEffort::Low => ReasoningEffortValue::Low,
        ReasoningEffort::Medium => ReasoningEffortValue::Medium,
        ReasoningEffort::High => ReasoningEffortValue::High,
        ReasoningEffort::XHigh => ReasoningEffortValue::XHigh,
        ReasoningEffort::Max => ReasoningEffortValue::Max,
    }
}

/// The name of a requested reasoning effort (`Off` is called `none`).
pub open spec fn reasoning_effort_name(effort: ReasoningEffort) -> Seq<char> {
    match effort {
        ReasoningEffort::Off => "none"@,
        ReasoningEffort::Minimal => "minimal"@,
        ReasoningEffort::Low => "low"@,
        ReasoningEffort::Medium => "medium"@,
        ReasoningEffort::High => "high"@,
        ReasoningEffort::XHigh => "x_high"@,
        ReasoningEffort::Max => "max"@,
    }
}

/// The name of a reasoning effort as the request body carries it.
pub open spec fn effort_value_name(value: ReasoningEffortValue) -> Seq<char> {
    match value {
        ReasoningEffortValue::Off => "none"@,
        ReasoningEffortValue::Minimal => "minimal"@,
        ReasoningEffortValue::Low => "low"@,
        ReasoningEffortValue::Medium => "medium"@,
        ReasoningEffortValue::High => "high"@,
        ReasoningEffortValue::XHigh => "x_high"@,
        ReasoningEffortValue::Max => "max"@,
    }
}

/// A request carries the effort it was asked for: the effort in the body
/// has the name of the requested effort, and different efforts are never
/// sent alike.
pub proof fn lemma_effort_keeps_its_name(a: ReasoningEffort, b: ReasoningEffort)
    ensures
        effort_value_name(effort_value_of(a)) == reasoning_effort_name(a),
        effort_value_of(a) == effort_value_of(b) ==> a == b,
{
    reveal_strlit("none");
    reveal_strlit("minimal");
    reveal_strlit("low");
    reveal_strlit("medium");
    reveal_strlit("high");
    reveal_strlit("x_high");
    reveal_strlit("max");
    if effort_value_of(a) == effort_value_of(b) {
        assert(reasoning_effort_name(a) == reasoning_effort_name(b));
        assert(reasoning_effort_name(a).len() == reasoning_effort_name(b).len());
        assert(reasoning_effort_name(a)[0] == reasoning_effort_name(b)[0]);
        assert(reasoning_effort_name(a)[1] == reasoning_effort_name(b)[1]);
    }
}

/// A request asks for thinking exactly when it was asked to, and offers
/// each tool as a function under the tool's own name, description and
/// schema.
pub proof fn lemma_request_carries_what_was_asked(mode: ThinkingMode, d: ToolDefinition)
    ensures
        (thinking_of(mode).kind == ThinkingModeValue::Enabled) <==> (mode == ThinkingMode::Enabled),
        (thinking_of(mode).kind == ThinkingModeValue::Disabled) <==> (mode
            == ThinkingMode::Disabled),
        tool_of(d).kind@ == "function"@,
        tool_of(d).function.name == d.name,
        tool_of(d).function.description == d.description,
        tool_of(d).function.parameters == d.input_schema,
{
}

/// The tool entry that offers `definition` as a function.
pub open spec fn tool_of(definition: ToolDefinition) -> Tool {
    Tool {
        kind: "function",
        function: FunctionDefinition {
            name: definition.name,
            description: definition.description,
            parameters: definition.input_schema,
        },
    }
}

fn thinking_value(mode: ThinkingMode) -> (t: Thinking)
    ensures
        t == thinking_of(mode),
{
    match mode {
        ThinkingMode::Enabled => Thinking { kind: ThinkingModeValue::Enabled },
        ThinkingMode::Disabled => Thinking { kind: ThinkingModeValue::Disabled },
    }
}

fn effort_value(effort: ReasoningEffort) -> (v: ReasoningEffortValue)
    ensures
        v == effort_value_of(effort),
{
    match effort {
        ReasoningEffort::Off => ReasoningEffortValue::Off,
        ReasoningEffort::Minimal => ReasoningEffortValue::Minimal,
        ReasoningEffort::Low => ReasoningEffortValue::Low,
        ReasoningEffort::Medium => ReasoningEffortValue::Medium,
        ReasoningEffort::High => ReasoningEffortValue::High,
        ReasoningEffort::XHigh => ReasoningEffortValue::XHigh,
        ReasoningEffort::Max => ReasoningEffortValue::Max,
    }
}

fn tools_of(definitions: Vec<ToolDefinition>) -> (tools: Vec<Tool>)
    ensures
        tools@ == definitions@.map_values(|d: ToolDefinition| tool_of(d)),
{
    let mut definitions = definitions;
    let ghost all = definitions@;
    let mut reversed: Vec<Tool> = Vec::new();
    while definitions.len() > 0
        invariant
            definitions@.len() + reversed@.len() == all.len(),
            definitions@ == all.take(definitions@.len() as int),
            forall|i: int|
                0 <= i < reversed@.len() ==> #[trigger] reversed@[i] == tool_of(
                    all[all.len() - 1 - i],
                ),
        decreases definitions@.len(),
    {
        let definition = definitions.pop().unwrap();
        reversed.push(
            Tool {
                kind: "function",
                function: FunctionDefinition {
                    name: definition.name,
                    description: definition.description,
                    parameters: definition.input_schema,
                },
            },
        );
        assert(definitions@ =~= all.take(definitions@.len() as int));
    }
    let mut tools: Vec<Tool> = Vec::new();
    while reversed.len() > 0
        invariant
            tools@.len() + reversed@.len() == all.len(),
            forall|i: int|
                0 <= i < reversed@.len() ==> #[trigger] reversed@[i] == tool_of(
                    all[all.len() - 1 - i],
                ),
            forall|i: int| 0 <= i < tools@.len() ==> #[trigger] tools@[i] == tool_of(all[i]),
        decreases reversed@.len(),
    {
        let tool = reversed.pop().unwrap();
        tools.push(tool);
    }
    assert(tools@ =~= all.map_values(|d: ToolDefinition| tool_of(d)));
    tools
}

impl ChatCompletionRequest {
    /// The streamed request body: usage is requested in the final chunk.
    pub fn streaming(request: CompletionRequest) -> (r: Self)
        ensures
            r.model == request.model,
            r.messages == request.messages,
            r.stream,
            r.stream_options == Some(StreamOptions { include_usage: true }),
            r.thinking == (match request.thinking {
                Some(mode) => Some(thinking_of(mode)),
                None => None,
            }),
            r.reasoning_effort == (match request.reasoning_effort {
                Some(effort) => Some(effort_value_of(effort)),
                None => None,
            }),
            r.tools@ == request.tools@.map_values(|d: ToolDefinition| tool_of(d)),
    {
        let thinking = match request.thinking {
            Some(mode) => Some(thinking_value(mode)),
            None => None,
        };
        let reasoning_effort = match request.reasoning_effort {
            Some(effort) => Some(effort_value(effort)),
            None => None,
        };
        ChatCompletionRequest {
            model: request.model,
            messages: request.messages,
            stream: true,
            stream_options: Some(StreamOptions { include_usage: true }),
            thinking,
            reasoning_effort,
            tools: tools_of(request.tools),
        }
    }

    /// The request body of a single, non-streamed completion.
    pub fn non_streaming(request: CompletionRequest) -> (r: Self)
        ensures
            r.model == request.model,
            r.messages == request.messages,
            !r.stream,
            r.stream_options is None,
            r.thinking == (match request.thinking {
                Some(mode) => Some(thinking_of(mode)),
                None => None,
            }),
            r.reasoning_effort == (match request.reasoning_effort {
                Some(effort) => Some(effort_value_of(effort)),
                None => None,
            }),
            r.tools@ == request.tools@.map_values(|d: ToolDefinition| tool_of(d)),
    {
        let thinking = match request.thinking {
            Some(mode) => Some(thinking_value(mode)),
            None => None,
        };
        let reasoning_effort = match request.reasoning_effort {
            Some(effort) => Some(effort_value(effort)),
            None => None,
        };
        ChatCompletionRequest {
            model: request.model,
            messages: request.messages,
            stream: false,
            stream_options: None,
            thinking,
            reasoning_effort,
            tools: tools_of(request.tools),
        }
    }
}

/// One parsed chunk of a streamed chat completion.
#[derive(Debug, Clone, PartialEq, Eq)]
pub struct ChatCompletionChunk {
    pub choices: Vec<ChunkChoice>,
    pub usage: Option<Usage>,
}

#[derive(Debug, Clone, PartialEq, Eq)]
pub struct ChunkChoice {
    pub delta: Delta,
    pub finish_reason: Option<String>,
}

#[derive(Debug, Clone, PartialEq, Eq)]
pub struct Delta {
    pub content: Option<String>,
    pub reasoning_content: Option<String>,
    pub tool_calls: Vec<ToolCallDelta>,
}

#[derive(Debug, Clone, PartialEq, Eq)]
pub struct ToolCallDelta {
    pub index: usize,
    pub id: Option<String>,
    pub function: Option<FunctionCallDelta>,
}

#[derive(Debug, Clone, PartialEq, Eq)]
pub struct FunctionCallDelta {
    pub name: Option<String>,
    pub arguments: Option<String>,
}

/// A parsed, non-streamed chat completion response.
#[derive(Debug, Clone, PartialEq, Eq)]
pub struct ChatCompletionResponse {
    pub choices: Vec<ResponseChoice>,
    pub usage: Option<Usage>,
}

#[derive(Debug, Clone, PartialEq, Eq)]
pub struct ResponseChoice {
    pub message: ResponseMessage,
    pub finish_reason: Option<String>,
}

#[derive(Debug, Clone, PartialEq, Eq)]
pub struct ResponseMessage {
    pub content: Option<String>,
    pub reasoning_content: Option<String>,
}

#[derive(Debug, Clone, Copy, PartialEq, Eq)]
pub struct Usage {
    pub prompt_tokens: u64,
    pub completion_tokens: u64,
    pub total_tokens: u64,
}

pub open spec fn token_usage_of(usage: Usage) -> TokenUsage {
    TokenUsage {
        prompt_tokens: usage.prompt_tokens,
        completion_tokens: usage.completion_tokens,
        total_tokens: usage.total_tokens,
    }
}

impl From<Usage> for TokenUsage {
    fn from(usage: Usage) -> (r: Self) {
        TokenUsage {
            prompt_tokens: usage.prompt_tokens,
            completion_tokens: usage.completion_tokens,
            total_tokens: usage.total_tokens,
        }
    }
}

impl vstd::std_specs::convert::FromSpecImpl<Usage> for TokenUsage {
    open spec fn obeys_from_spec() -> bool {
        true
    }

    open spec fn from_spec(usage: Usage) -> TokenUsage {
        token_usage_of(usage)
    }
}

/// What the JSON text of one streamed `data:` payload parsed into.
#[derive(Debug, Clone, PartialEq, Eq)]
pub enum ChunkParse {
    /// A completion chunk.
    Chunk(ChatCompletionChunk),
    /// Not a chunk, but a provider error object with this message.
    ProviderError(String),
    /// Neither; the parser's description of why the chunk is invalid.
    Invalid(String),
}

/// Whether the payload, without surrounding white space, is `[DONE]`.
pub open spec fn is_done_marker(data: Seq<char>) -> bool {
    trim(data) == "[DONE]"@
}

pub open spec fn text_nonempty(content: Option<String>) -> bool {
    content matches Some(c) && c@.len() > 0
}

/// The stream event that a tool call delta becomes.
pub open spec fn tool_call_event_of(event: StreamEvent, call: ToolCallDelta) -> bool {
    &&& event matches StreamEvent::ToolCallDelta { index, id, name, arguments }
    &&& index == call.index
    &&& id == call.id
    &&& name == (match call.function {
        Some(f) => f.name,
        None => None,
    })
    &&& arguments@ == (match call.function {
        Some(f) => match f.arguments {
            Some(a) => a@,
            None => Seq::<char>::empty(),
        },
        None => Seq::<char>::empty(),
    })
}

/// The events that one chunk choice yields, in order: the reasoning text
/// and the answer text when non-empty, then one event per tool call delta.
pub open spec fn choice_events(events: Seq<StreamEvent>, choice: ChunkChoice) -> bool {
    let reasoning = text_nonempty(choice.delta.reasoning_content);
    let text = text_nonempty(choice.delta.content);
    let k: int = (if reasoning { 1int } else { 0 }) + (if text { 1int } else { 0 });
    let calls = choice.delta.tool_calls@;
    &&& events.len() == k + calls.len()
    &&& reasoning ==> events[0] == StreamEvent::ReasoningDelta {
        content: choice.delta.reasoning_content->0,
    }
    &&& text ==> events[k - 1] == StreamEvent::TextDelta { content: choice.delta.content->0 }
    &&& forall|i: int| 0 <= i < calls.len() ==> tool_call_event_of(#[trigger] events[k + i], calls[i])
}

/// The state of a streamed completion between chunks.
pub struct CompletionState {
    pub finish_reason: Option<String>,
    pub usage: Option<TokenUsage>,
    pub pending: VecDeque<StreamEvent>,
    pub completed: bool,
}

fn clone_text(s: &Option<String>) -> (r: Option<String>)
    ensures
        r == *s,
{
    match s {
        Some(value) => Some(value.clone()),
        None => None,
    }
}

fn tool_call_event(call: &ToolCallDelta) -> (e: StreamEvent)
    ensures
        tool_call_event_of(e, *call),
{
    let (name, arguments) = match &call.function {
        Some(function) => {
            let arguments = match &function.arguments {
                Some(a) => a.clone(),
                None => String::new(),
            };
            (clone_text(&function.name), arguments)
        },
        None => (None, String::new()),
};
    StreamEvent::ToolCallDelta { index: call.index, id: clone_text(&call.id), name, arguments }
}

impl CompletionState {
    /// A state that has seen no chunk yet.
    pub fn new() -> (s: Self)
        ensures
            s.finish_reason is None,
            s.usage is None,
            s.pending@.len() == 0,
            !s.completed,
    {
        CompletionState {
            finish_reason: None,
            usage: None,
            pending: VecDeque::new(),
            completed: false,
        }
    }

    /// Takes in one `data:` payload of the stream. `[DONE]` completes the
    /// stream with the last finish reason and usage seen; a chunk records its
    /// usage and finish reason and queues the events of its first choice; a
    /// provider error or an unparsable payload fails, leaving the state as
    /// it was.
    pub fn consume(&mut self, data: &str, parsed: ChunkParse) -> (r: Result<(), ModelError>)
        ensures
            is_done_marker(data@) ==> {
                &&& r is Ok
                &&& final(self).completed
                &&& final(self).finish_reason is None
                &&& final(self).usage is None
                &&& final(self).pending@ == old(self).pending@.push(
                    StreamEvent::Completed {
                        finish_reason: old(self).finish_reason,
                        usage: old(self).usage,
                    },
                )
            },
            !is_done_marker(data@) ==> match parsed {
                ChunkParse::ProviderError(message) => {
                    &&& r == Err::<(), ModelError>(
                        ModelError::Upstream { status: None, message },
                    )
                    &&& *final(self) == *old(self)
                },
                ChunkParse::Invalid(error) => {
                    &&& r matches Err(ModelError::Protocol(m)) && m@ == "invalid OpenAI chunk: "@
                        + error@
                    &&& *final(self) == *old(self)
                },
                ChunkParse::Chunk(chunk) => {
                    &&& r is Ok
                    &&& final(self).completed == old(self).completed
                    &&& final(self).usage == (match chunk.usage {
                        Some(u) => Some(token_usage_of(u)),
                        None => old(self).usage,
                    })
                    &&& chunk.choices@.len() == 0 ==> {
                        &&& final(self).finish_reason == old(self).finish_reason
                        &&& final(self).pending@ == old(self).pending@
                    }
                    &&& chunk.choices@.len() > 0 ==> {
                        let choice = chunk.choices@[0];
                        &&& final(self).finish_reason == (match choice.finish_reason {
                            Some(reason) => Some(reason),
                            None => old(self).finish_reason,
                        })
                        &&& final(self).pending@.len() >= old(self).pending@.len()
                        &&& final(self).pending@.subrange(0, old(self).pending@.len() as int)
                            == old(self).pending@
                        &&& choice_events(
                            final(self).pending@.subrange(
                                old(self).pending@.len() as int,
                                final(self).pending@.len() as int,
                            ),
                            choice,
                        )
                    }
                },
            },
    {
        let data_chars = chars_of(data);
        let trimmed = trim_chars(data_chars.as_slice());
        let marker = chars_of("[DONE]");
        if chars_eq(trimmed.as_slice(), marker.as_slice()) {
            self.completed = true;
            let finish_reason = self.finish_reason.take();
            let usage = self.usage.take();
            self.pending.push_back(StreamEvent::Completed { finish_reason, usage });
            return Ok(());
        }
        let chunk = match parsed {
            ChunkParse::ProviderError(message) => {
                return Err(ModelError::Upstream { status: None, message });
            },
            ChunkParse::Invalid(error) => {
                return Err(ModelError::Protocol(concat_str("invalid OpenAI chunk: ", error.as_str())));
            },
            ChunkParse::Chunk(chunk) => chunk,
        };
        if let Some(usage) = chunk.usage {
            self.usage = Some(TokenUsage {
                prompt_tokens: usage.prompt_tokens,
                completion_tokens: usage.completion_tokens,
                total_tokens: usage.total_tokens,
            });
        }
        if chunk.choices.len() == 0 {
            return Ok(());
        }
        let choice = &chunk.choices[0];
        if let Some(reason) = &choice.finish_reason {
            self.finish_reason = Some(reason.clone());
        }
        let ghost before = self.pending@;
        let reasoning = text_nonempty_exec(&choice.delta.reasoning_content);
        let text = text_nonempty_exec(&choice.delta.content);
        if reasoning {
            let content = choice.delta.reasoning_content.as_ref().unwrap().clone();
            self.pending.push_back(StreamEvent::ReasoningDelta { content });
        }
        if text {
            let content = choice.delta.content.as_ref().unwrap().clone();
            self.pending.push_back(StreamEvent::TextDelta { content });
        }
        let ghost k: int = (if reasoning { 1int } else { 0 }) + (if text { 1int } else { 0 });
        let ghost mid = self.pending@;
        let ghost fields = (self.completed, self.usage, self.finish_reason);
        assert(mid.len() == before.len() + k);
        assert(mid.subrange(0, before.len() as int) =~= before);
        let calls = &choice.delta.tool_calls;
        let mut i: usize = 0;
        while i < calls.len()
            invariant
                0 <= k <= 2,
                fields == (self.completed, self.usage, self.finish_reason),
                mid.len() == before.len() + k,
                i <= calls@.len(),
                self.pending@.len() == mid.len() + i,
                forall|j: int| 0 <= j < mid.len() ==> #[trigger] self.pending@[j] == mid[j],
                forall|j: int|
                    0 <= j < i ==> tool_call_event_of(
                        #[trigger] self.pending@[mid.len() + j],
                        calls@[j],
                    ),
            decreases calls@.len() - i,
        {
            let event = tool_call_event(&calls[i]);
            self.pending.push_back(event);
            i = i + 1;
        }
        let ghost added = self.pending@.subrange(before.len() as int, self.pending@.len() as int);
        assert(self.pending@.subrange(0, before.len() as int) =~= before);
        assert forall|j: int| 0 <= j < calls@.len() implies tool_call_event_of(
            #[trigger] added[k + j],
            calls@[j],
        ) by {
            assert(added[k + j] == self.pending@[mid.len() + j]);
        }
        assert(reasoning ==> added[0] == mid[before.len() as int]);
        assert(text ==> added[k - 1] == mid[before.len() + k - 1]);
        assert(added.len() == k + calls@.len());
        assert(choice_events(added, *choice));
        assert(self.pending@.len() >= old(self).pending@.len());
        Ok(())
    }
}

fn text_nonempty_exec(content: &Option<String>) -> (r: bool)
    ensures
        r == text_nonempty(*content),
{
    match content {
        Some(c) => c.as_str().unicode_len() > 0,
        None => false,
    }
}


/// Name for what `reqwest::StatusCode::canonical_reason` returns for the
/// status code with this number (`None` also for a number that is no valid
/// status code).
pub uninterp spec fn canonical_reason_of(status: u16) -> Option<Seq<char>>;

/// Calls `reqwest::StatusCode::from_u16` and, for a valid code,
/// `StatusCode::canonical_reason`; the contract claims only that the result
/// is the reason phrase that the crate assigns to that number.
#[verifier::external_body]
fn canonical_reason(status: u16) -> (r: Option<&'static str>)
    ensures
        r matches Some(reason) ==> canonical_reason_of(status) == Some(reason@),
        r is None ==> canonical_reason_of(status) is None,
{
    match reqwest::StatusCode::from_u16(status) {
        Ok(code) => code.canonical_reason(),
        Err(_) => None,
    }
}

/// The message of a failed response: the provider's error message when the
/// body held one, else the reason phrase of the status, else a fixed text.
pub open spec fn response_error_message(status: u16, provider_message: Option<String>) -> Seq<
    char,
> {
    match provider_message {
        Some(message) => message@,
        None => match canonical_reason_of(status) {
            Some(reason) => reason,
            None => "request failed"@,
        },
    }
}

/// The error for an HTTP response with a status other than success.
pub open spec fn response_error_matches(e: ModelError, status: u16, message: Seq<char>) -> bool {
    if status == 401 || status == 403 {
        e matches ModelError::Authentication { message: m } && m@ == message
    } else if status == 429 {
        e matches ModelError::RateLimited { message: m } && m@ == message
    } else if status == 408 || status == 504 {
        e == ModelError::Timeout
    } else if 400 <= status < 500 {
        e matches ModelError::InvalidRequest { status: s, message: m } && s == status && m@
            == message
    } else {
        e matches ModelError::Upstream { status: s, message: m } && s == Some(status) && m@
            == message
    }
}

/// Which error a failed response gives depends on its status alone:
/// authentication failures (401 and 403) and rate limits (429) carry the
/// response's message, timeouts (408 and 504) carry none, other client
/// errors keep their status and message, and everything else is an
/// upstream failure with its status.
pub proof fn lemma_response_errors_follow_the_status(e: ModelError, status: u16, message: Seq<char>)
    requires
        response_error_matches(e, status, message),
    ensures
        (status == 401 || status == 403) <==> (e matches ModelError::Authentication { message: m }
            && m@ == message),
        status == 429 <==> e is RateLimited,
        (status == 408 || status == 504) <==> e is Timeout,
        e is InvalidRequest <==> (400 <= status < 500 && status != 401 && status != 403 && status
            != 429 && status != 408),
        e is Upstream <==> (status < 400 || (status >= 500 && status != 504)),
        e matches ModelError::InvalidRequest { status: s, message: m } ==> s == status && m@
            == message,
        e matches ModelError::Upstream { status: s, message: m } ==> s == Some(status) && m@
            == message,
        e matches ModelError::RateLimited { message: m } ==> m@ == message,
{
}

/// A failed response is reported with the provider's own message when the
/// body had one; only without it does the status's reason phrase stand in.
pub proof fn lemma_provider_message_wins(status: u16, message: String)
    ensures
        response_error_message(status, Some(message)) == message@,
        canonical_reason_of(status) matches Some(reason) ==> response_error_message(status, None)
            == reason,
{
}

/// Classifies a failed response by its status: authentication, rate limit,
/// timeout, other client errors, and upstream failures.
/// `provider_message` is the `error.message` of the body, when the body
/// parsed as a provider error object.
pub fn map_response_error(status: u16, provider_message: Option<String>) -> (e: ModelError)
    ensures
        response_error_matches(e, status, response_error_message(status, provider_message)),
{
    let message = match provider_message {
        Some(message) => message,
        None => match canonical_reason(status) {
            Some(reason) => reason.to_owned(),
            None => "request failed".to_owned(),
        },
};
    if status == 401 || status == 403 {
        ModelError::Authentication { message }
    } else if status == 429 {
        ModelError::RateLimited { message }
    } else if status == 408 || status == 504 {
        ModelError::Timeout
    } else if 400 <= status && status < 500 {
        ModelError::InvalidRequest { status, message }
    } else {
        ModelError::Upstream { status: Some(status), message }
    }
}

/// A transport failure: a timeout, or any other failure with its message.
pub fn map_transport_error(timed_out: bool, message: String) -> (e: ModelError)
    ensures
        timed_out ==> e == ModelError::Timeout,
        !timed_out ==> e == ModelError::Transport(message),
{
    if timed_out {
        ModelError::Timeout
    } else {
        ModelError::Transport(message)
    }
}

/// A failure of the server-sent event layer.
#[derive(Debug, Clone, PartialEq, Eq)]
pub enum SseError {
    /// The bytes were not valid UTF-8 or not valid event-stream data.
    InvalidData(String),
    /// The transport failed; whether it timed out, and its message.
    Transport { timed_out: bool, message: String },
}

pub fn map_sse_error(error: SseError) -> (e: ModelError)
    ensures
        error matches SseError::InvalidData(message) ==> e == ModelError::Protocol(message),
        error matches SseError::Transport { timed_out, message } ==> e == (if timed_out {
            ModelError::Timeout
        } else {
            ModelError::Transport(message)
        }),
{
    match error {
        SseError::InvalidData(message) => ModelError::Protocol(message),
        SseError::Transport { timed_out, message } => map_transport_error(timed_out, message),
    }
}

/// The completion that a non-streamed response holds: its first choice,
/// with the usage of the whole response.
pub fn completion_from_response(response: ChatCompletionResponse) -> (r: Result<
    Completion,
    ModelError,
>)
    ensures
        response.choices@.len() == 0 ==> (r matches Err(ModelError::Protocol(m)) && m@
            == "OpenAI response contained no choices"@),
        response.choices@.len() > 0 ==> r == Ok::<Completion, ModelError>(
            Completion {
                content: response.choices@[0].message.content,
                reasoning_content: response.choices@[0].message.reasoning_content,
                finish_reason: response.choices@[0].finish_reason,
                usage: match response.usage {
                    Some(u) => Some(token_usage_of(u)),
                    None => None,
                },
            },
        ),
{
    let mut choices = response.choices;
    if choices.len() == 0 {
        return Err(ModelError::Protocol("OpenAI response contained no choices".to_owned()));
    }
    let choice = choices.remove(0);
    let usage = match response.usage {
        Some(u) => Some(
            TokenUsage {
                prompt_tokens: u.prompt_tokens,
                completion_tokens: u.completion_tokens,
                total_tokens: u.total_tokens,
            },
        ),
        None => None,
};
    Ok(
        Completion {
            content: choice.message.content,
            reasoning_content: choice.message.reasoning_content,
            finish_reason: choice.finish_reason,
            usage,
        },
    )
}

} // verus!
