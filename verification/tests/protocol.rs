use yukin::protocol::model_provider::ApiFormat;
use yukin::protocol::mcp_server::ServerType;
use yukin::memory::MemoryKind;
use yukin::protocol::agent_run::RunStatus;
use yukin::protocol::conversation::{MessageRole, MessageStatus};

#[test]
fn parses_stored_run_status() {
    assert_eq!(RunStatus::try_from("running"), Ok(RunStatus::Running));
    assert_eq!(
        RunStatus::try_from("waiting_approval"),
        Ok(RunStatus::WaitingApproval)
    );
    assert!(RunStatus::try_from("unknown").is_err());
}

#[test]
fn parses_stored_message_enums() {
    assert_eq!(
        MessageRole::try_from("assistant"),
        Ok(MessageRole::Assistant)
    );
    assert_eq!(
        MessageStatus::try_from("cancelled"),
        Ok(MessageStatus::Cancelled)
    );
    assert!(MessageRole::try_from("unknown").is_err());
    assert!(MessageStatus::try_from("unknown").is_err());
}

#[test]
fn stored_names_round_trip() {

    for format in [ApiFormat::OpenAi, ApiFormat::Anthropic] {
        assert_eq!(ApiFormat::try_from(format.as_str().to_string()), Ok(format));
    }
    assert!(ApiFormat::try_from("OpenAI".to_string()).is_err());
    for server in [ServerType::Node, ServerType::Python, ServerType::Binary, ServerType::Uv] {
        assert_eq!(ServerType::try_from(server.as_str().to_string()), Ok(server));
    }
}

#[test]
fn memory_kinds_have_stored_names() {
    assert_eq!(MemoryKind::User.as_str(), "user");
    assert_eq!(MemoryKind::Feedback.as_str(), "feedback");
    assert_eq!(MemoryKind::Project.as_str(), "project");
    assert_eq!(MemoryKind::Reference.as_str(), "reference");
}
