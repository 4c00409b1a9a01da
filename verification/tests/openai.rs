use yukin::agent::openai::{
    map_response_error, ChatCompletionChunk, ChunkChoice, ChunkParse, CompletionState, Delta,
    FunctionCallDelta, ToolCallDelta, Usage,
};
use yukin::agent::{StreamEvent, TokenUsage};
use yukin::errors::ModelError;

fn chunk(delta: Delta, finish_reason: Option<&str>, usage: Option<Usage>) -> ChunkParse {
    ChunkParse::Chunk(ChatCompletionChunk {
        choices: vec![ChunkChoice {
            delta,
            finish_reason: finish_reason.map(str::to_string),
        }],
        usage,
    })
}

#[test]
fn maps_chunks_and_done_to_internal_events() {
    let mut state = CompletionState::new();

    state
        .consume(
            r#"{"choices":[{"delta":{"reasoning_content":"先思考","content":"你好"},"finish_reason":null}],"usage":null}"#,
            chunk(
                Delta {
                    content: Some("你好".into()),
                    reasoning_content: Some("先思考".into()),
                    tool_calls: Vec::new(),
                },
                None,
                None,
            ),
        )
        .expect("valid delta");
    assert_eq!(
        state.pending.pop_front(),
        Some(StreamEvent::ReasoningDelta {
            content: "先思考".into()
        })
    );
    assert_eq!(
        state.pending.pop_front(),
        Some(StreamEvent::TextDelta {
            content: "你好".into()
        })
    );

    state
        .consume(
            r#"{"choices":[{"delta":{"tool_calls":[{"index":0,"id":"call-1","function":{"name":"current_time","arguments":"{}"}}]},"finish_reason":null}]}"#,
            chunk(
                Delta {
                    content: None,
                    reasoning_content: None,
                    tool_calls: vec![ToolCallDelta {
                        index: 0,
                        id: Some("call-1".into()),
                        function: Some(FunctionCallDelta {
                            name: Some("current_time".into()),
                            arguments: Some("{}".into()),
                        }),
                    }],
                },
                None,
                None,
            ),
        )
        .expect("valid tool call delta");
    assert_eq!(
        state.pending.pop_front(),
        Some(StreamEvent::ToolCallDelta {
            index: 0,
            id: Some("call-1".into()),
            name: Some("current_time".into()),
            arguments: "{}".into(),
        })
    );

    state
        .consume(
            r#"{"choices":[{"delta":{"content":null},"finish_reason":"stop"}],"usage":{"prompt_tokens":3,"completion_tokens":2,"total_tokens":5}}"#,
            chunk(
                Delta {
                    content: None,
                    reasoning_content: None,
                    tool_calls: Vec::new(),
                },
                Some("stop"),
                Some(Usage {
                    prompt_tokens: 3,
                    completion_tokens: 2,
                    total_tokens: 5,
                }),
            ),
        )
        .expect("valid finished chunk");
    assert_eq!(state.pending.pop_front(), None);

    state
        .consume("[DONE]", ChunkParse::Invalid("not JSON".into()))
        .expect("valid done event");
    assert_eq!(
        state.pending.pop_front(),
        Some(StreamEvent::Completed {
            finish_reason: Some("stop".into()),
            usage: Some(TokenUsage {
                prompt_tokens: 3,
                completion_tokens: 2,
                total_tokens: 5,
            })
        })
    );
}

#[test]
fn maps_streamed_provider_error() {
    let mut state = CompletionState::new();

    let error = state
        .consume(
            r#"{"error":{"message":"service unavailable","type":"server_error"}}"#,
            ChunkParse::ProviderError("service unavailable".into()),
        )
        .expect_err("provider error");

    assert!(matches!(
        error,
        ModelError::Upstream {
            status: None,
            message
        } if message == "service unavailable"
    ));
}

#[test]
fn maps_http_error_categories() {
    let authentication = map_response_error(401, Some("invalid key".into()));
    assert!(matches!(
        authentication,
        ModelError::Authentication { message } if message == "invalid key"
    ));

    let rate_limited = map_response_error(429, Some("slow down".into()));
    assert!(matches!(
        rate_limited,
        ModelError::RateLimited { message } if message == "slow down"
    ));

    let upstream = map_response_error(502, None);
    assert!(matches!(
        upstream,
        ModelError::Upstream {
            status: Some(502),
            message
        } if message == "Bad Gateway"
    ));
}

#[test]
fn invalid_chunks_fail_as_protocol_errors() {
    let mut state = CompletionState::new();
    let error = state
        .consume("{", ChunkParse::Invalid("EOF while parsing".into()))
        .expect_err("invalid chunk");
    assert!(matches!(error, ModelError::Protocol(_)));
    assert!(state.pending.is_empty());
}

#[test]
fn client_errors_are_invalid_requests() {
    let error = map_response_error(400, None);
    assert!(matches!(error, ModelError::InvalidRequest { status: 400, .. }));
    assert_eq!(error.code(), "model_invalid_request");
}
