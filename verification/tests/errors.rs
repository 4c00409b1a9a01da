use yukin::errors::{AppError, FileError, ModelError, RuntimeError};

#[test]
fn serializes_model_error_code() {
    let error = AppError::Model(ModelError::RateLimited { message: "slow down".into() });
    assert_eq!(error.code(), "model_rate_limited");
    assert_eq!(error.message(), "model: model request was rate limited: slow down");
}

#[test]
fn serializes_run_state_error_code() {
    let error = AppError::RunState("run is not active".into());
    assert_eq!(error.code(), "run_state");
    assert_eq!(error.message(), "run state: run is not active");
}

#[test]
fn serializes_agent_limit_error_code() {
    let error = AppError::Agent(RuntimeError::StepLimit);
    assert_eq!(error.code(), "agent_step_limit");
    assert_eq!(error.message(), "agent: agent reached the maximum model steps");
}

#[test]
fn messages_carry_their_details() {
    assert_eq!(
        ModelError::InvalidRequest { status: 400, message: "bad".into() }.message(),
        "invalid model request (400): bad"
    );
    assert_eq!(
        ModelError::Upstream { status: Some(502), message: "down".into() }.message(),
        "model provider failed (Some(502)): down"
    );
    assert_eq!(
        ModelError::Upstream { status: None, message: "down".into() }.message(),
        "model provider failed (None): down"
    );
    assert_eq!(
        ModelError::InvalidRequest { status: 7, message: String::new() }.message(),
        "invalid model request (7): "
    );
    assert_eq!(
        RuntimeError::File(FileError::Io("disk full".into())).message(),
        "file tool failed: file system access failed: disk full"
    );
    assert_eq!(
        RuntimeError::SkillToolUnavailable { skill: "s".into(), tool: "t".into() }.message(),
        "skill s requires unavailable tool: t"
    );
    assert_eq!(AppError::Other("plain".into()).message(), "plain");
    assert_eq!(AppError::Other("plain".into()).code(), "other");
    assert_eq!(AppError::Io("gone".into()).message(), "io: gone");
}
