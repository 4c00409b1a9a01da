use vstd::prelude::*;

use crate::protocol::common::RecordTimestamps;
use crate::text::{concat_str, str_eq};

verus! {

#[derive(Debug, Clone, PartialEq, Eq)]
pub struct Conversation {
    pub id: String,
    pub title: String,
    pub metadata: RecordTimestamps,
}

#[derive(Debug, Clone, PartialEq, Eq)]
pub struct Message {
    pub id: String,
    pub run_id: Option<String>,
    pub role: MessageRole,
    pub content: String,
    pub status: MessageStatus,
    pub sequence: i64,
    pub metadata: RecordTimestamps,
}

#[derive(Debug, Clone, Copy, PartialEq, Eq)]
pub enum MessageRole {
    User,
    Assistant,
    Tool,
}

/// The stored name of a message role.
pub open spec fn message_role_from_name(name: Seq<char>) -> Option<MessageRole> {
    if name == "user"@ {
        Some(MessageRole::User)
    } else if name == "assistant"@ {
        Some(MessageRole::Assistant)
    } else if name == "tool"@ {
        Some(MessageRole::Tool)
    } else {
        None
    }
}

impl TryFrom<&str> for MessageRole {
    type Error = String;

    fn try_from(value: &str) -> (r: Result<Self, Self::Error>)
        ensures
            r is Ok <==> message_role_from_name(value@) is Some,
            r matches Ok(role) ==> message_role_from_name(value@) == Some(role),
            r matches Err(message) ==> message@ == "invalid message role: "@ + value@,
    {
        if str_eq(value, "user") {
            Ok(MessageRole::User)
        } else if str_eq(value, "assistant") {
            Ok(MessageRole::Assistant)
        } else if str_eq(value, "tool") {
            Ok(MessageRole::Tool)
        } else {
            Err(concat_str("invalid message role: ", value))
        }
    }
}

/// The string error of a failed conversion is built at run time, so no
/// spec value stands for it; the exact outcome is stated on `try_from`.
impl vstd::std_specs::convert::TryFromSpecImpl<&str> for MessageRole {
    open spec fn obeys_try_from_spec() -> bool {
        false
    }

    open spec fn try_from_spec(value: &str) -> Result<Self, String> {
        Ok(MessageRole::User)
    }
}

#[derive(Debug, Clone, Copy, PartialEq, Eq)]
pub enum MessageStatus {
    Streaming,
    Completed,
    Failed,
    Cancelled,
}

/// The stored name of a message status.
pub open spec fn message_status_from_name(name: Seq<char>) -> Option<MessageStatus> {
    if name == "streaming"@ {
        Some(MessageStatus::Streaming)
    } else if name == "completed"@ {
        Some(MessageStatus::Completed)
    } else if name == "failed"@ {
        Some(MessageStatus::Failed)
    } else if name == "cancelled"@ {
        Some(MessageStatus::Cancelled)
    } else {
        None
    }
}

impl TryFrom<&str> for MessageStatus {
    type Error = String;

    fn try_from(value: &str) -> (r: Result<Self, Self::Error>)
        ensures
            r is Ok <==> message_status_from_name(value@) is Some,
            r matches Ok(status) ==> message_status_from_name(value@) == Some(status),
            r matches Err(message) ==> message@ == "invalid message status: "@ + value@,
    {
        if str_eq(value, "streaming") {
            Ok(MessageStatus::Streaming)
        } else if str_eq(value, "completed") {
            Ok(MessageStatus::Completed)
        } else if str_eq(value, "failed") {
            Ok(MessageStatus::Failed)
        } else if str_eq(value, "cancelled") {
            Ok(MessageStatus::Cancelled)
        } else {
            Err(concat_str("invalid message status: ", value))
        }
    }
}

/// The string error of a failed conversion is built at run time, so no
/// spec value stands for it; the exact outcome is stated on `try_from`.
impl vstd::std_specs::convert::TryFromSpecImpl<&str> for MessageStatus {
    open spec fn obeys_try_from_spec() -> bool {
        false
    }

    open spec fn try_from_spec(value: &str) -> Result<Self, String> {
        Ok(MessageStatus::Streaming)
    }
}

#[derive(Debug, Clone, PartialEq, Eq)]
pub struct Snapshot {
    pub conversation: Conversation,
    pub messages: Vec<Message>,
}

#[derive(Debug, Clone, PartialEq, Eq)]
pub struct FindRequest {
    pub id: String,
}

#[derive(Debug, Clone, PartialEq, Eq)]
pub struct RenameRequest {
    pub id: String,
    pub title: String,
}

#[derive(Debug, Clone, PartialEq, Eq)]
pub struct DeleteRequest {
    pub id: String,
}

} // verus!
