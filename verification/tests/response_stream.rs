use yukin::agent::{StreamEvent as ModelEvent, TokenUsage as ModelUsage};
use yukin::protocol::model_response::{StreamEvent, TokenUsage};
use yukin::response_stream::{report_usage, ResponseRecorder};

#[test]
fn text_is_kept_and_passed_on() {
    let mut recorder = ResponseRecorder::new();
    assert_eq!(
        recorder.step(ModelEvent::TextDelta { content: "你".into() }),
        Some(StreamEvent::OutputDelta { content: "你".into() })
    );
    assert_eq!(
        recorder.step(ModelEvent::ReasoningDelta { content: "thinking".into() }),
        None
    );
    assert_eq!(
        recorder.step(ModelEvent::ToolCallDelta {
            index: 0,
            id: None,
            name: None,
            arguments: "{".into(),
        }),
        None
    );
    assert_eq!(
        recorder.step(ModelEvent::TextDelta { content: "好".into() }),
        Some(StreamEvent::OutputDelta { content: "好".into() })
    );
    assert_eq!(recorder.content, "你好");
    assert_eq!(recorder.usage, None);
}

#[test]
fn completion_reports_its_usage() {
    let usage = ModelUsage { prompt_tokens: 3, completion_tokens: 4, total_tokens: 7 };
    let mut recorder = ResponseRecorder::new();
    assert_eq!(
        recorder.step(ModelEvent::Completed {
            finish_reason: Some("stop".into()),
            usage: Some(usage),
        }),
        Some(StreamEvent::Completed {
            finish_reason: Some("stop".into()),
            usage: Some(TokenUsage { prompt_tokens: 3, completion_tokens: 4, total_tokens: 7 }),
        })
    );
    assert_eq!(recorder.usage, Some(usage));
    assert_eq!(recorder.content, "");
    assert_eq!(report_usage(None), None);
}
