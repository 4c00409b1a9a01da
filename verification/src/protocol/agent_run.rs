use vstd::prelude::*;

use crate::protocol::file::{DirectoryReference, Reference};
use crate::protocol::model_provider::ReasoningEffort;
use crate::text::{concat_str, str_eq};

verus! {

/// A request to start an agent run in a conversation.
#[derive(Debug, Clone, PartialEq, Eq)]
pub struct StartRequest {
    pub conversation_id: String,
    pub provider_id: String,
    pub model_id: String,
    pub reasoning_effort: Option<ReasoningEffort>,
    pub content: String,
    pub skill_ids: Vec<String>,
    pub attachments: Vec<Reference>,
    pub directory_scopes: Vec<DirectoryReference>,
}

#[derive(Debug, Clone, PartialEq, Eq)]
pub struct StartResponse {
    pub run_id: String,
    pub user_message_id: String,
    pub assistant_message_id: String,
}

#[derive(Debug, Clone, PartialEq, Eq)]
pub struct SnapshotRequest {
    pub run_id: String,
}

#[derive(Debug, Clone, PartialEq, Eq)]
pub struct CancelRequest {
    pub run_id: String,
}

/// The user's decision on a tool call, bound to the digest of the exact
/// arguments that were shown for approval.
#[derive(Debug, Clone, PartialEq, Eq)]
pub struct ToolCallDecideRequest {
    pub run_id: String,
    pub tool_call_id: String,
    pub arguments_digest: String,
    pub decision: ToolCallDecision,
}

#[derive(Debug, Clone, Copy, PartialEq, Eq)]
pub enum ToolCallDecision {
    Allow,
    Reject,
}

#[derive(Debug, Clone, Copy, PartialEq, Eq)]
pub enum RunStatus {
    Pending,
    Running,
    WaitingApproval,
    Completed,
    Failed,
    Cancelled,
}

/// The stored name of a run status.
pub open spec fn run_status_from_name(name: Seq<char>) -> Option<RunStatus> {
    if name == "pending"@ {
        Some(RunStatus::Pending)
    } else if name == "running"@ {
        Some(RunStatus::Running)
    } else if name == "waiting_approval"@ {
        Some(RunStatus::WaitingApproval)
    } else if name == "completed"@ {
        Some(RunStatus::Completed)
    } else if name == "failed"@ {
        Some(RunStatus::Failed)
    } else if name == "cancelled"@ {
        Some(RunStatus::Cancelled)
    } else {
        None
    }
}

impl TryFrom<&str> for RunStatus {
    type Error = String;

    fn try_from(value: &str) -> (r: Result<Self, Self::Error>)
        ensures
            r is Ok <==> run_status_from_name(value@) is Some,
            r matches Ok(status) ==> run_status_from_name(value@) == Some(status),
            r matches Err(message) ==> message@ == "invalid run status: "@ + value@,
    {
        if str_eq(value, "pending") {
            Ok(RunStatus::Pending)
        } else if str_eq(value, "running") {
            Ok(RunStatus::Running)
        } else if str_eq(value, "waiting_approval") {
            Ok(RunStatus::WaitingApproval)
        } else if str_eq(value, "completed") {
            Ok(RunStatus::Completed)
        } else if str_eq(value, "failed") {
            Ok(RunStatus::Failed)
        } else if str_eq(value, "cancelled") {
            Ok(RunStatus::Cancelled)
        } else {
            Err(concat_str("invalid run status: ", value))
        }
    }
}

/// The string error of a failed conversion is built at run time, so no
/// spec value stands for it; the exact outcome is stated on `try_from`.
impl vstd::std_specs::convert::TryFromSpecImpl<&str> for RunStatus {
    open spec fn obeys_try_from_spec() -> bool {
        false
    }

    open spec fn try_from_spec(value: &str) -> Result<Self, String> {
        Ok(RunStatus::Pending)
    }
}

#[derive(Debug, Clone, PartialEq, Eq)]
pub struct Run {
    pub id: String,
    pub conversation_id: String,
    pub provider_id: String,
    pub model_id: String,
    pub reasoning_effort: Option<ReasoningEffort>,
    pub status: RunStatus,
    pub error_code: Option<String>,
    pub error_message: Option<String>,
    pub prompt_tokens: Option<i64>,
    pub completion_tokens: Option<i64>,
    pub total_tokens: Option<i64>,
    pub created_at: String,
    pub started_at: Option<String>,
    pub completed_at: Option<String>,
    pub skills: Vec<RunSkill>,
}

/// A skill, at the version that a run used.
#[derive(Debug, Clone, PartialEq, Eq)]
pub struct RunSkill {
    pub id: String,
    pub version: String,
}

#[derive(Debug, Clone, Copy, PartialEq, Eq)]
pub enum ToolCallStatus {
    Requested,
    WaitingApproval,
    Running,
    Completed,
    Failed,
    Rejected,
    Cancelled,
}

#[derive(Debug, Clone, Copy, PartialEq, Eq)]
pub enum ToolRiskLevel {
    ReadOnly,
    Write,
}

#[derive(Debug, Clone, Copy, PartialEq, Eq)]
pub enum ToolApprovalPolicy {
    Never,
    Always,
}

#[derive(Debug, Clone, Copy, PartialEq, Eq)]
pub enum Phase {
    Thinking,
    Responding,
}

} // verus!
