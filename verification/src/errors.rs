//! Error kinds of the agent runtime, the model client and the file scopes,
//! each with the stable code that the frontend receives.

use vstd::prelude::*;

use crate::text::concat_str;

verus! {

/// Failures of the authorized file and directory scopes.
#[derive(Debug, Clone, PartialEq, Eq)]
pub enum FileError {
    ReferenceInvalid,
    EntryReferenceInvalid,
    InvalidName,
    DirectoryNameInvalid,
    AlreadyExists,
    CopyDestinationInvalid,
    CopyLimitExceeded,
    CopyIntoSource,
    MoveDestinationInvalid,
    MoveIntoSource,
    Trash,
    BatchMoveInvalid,
    NotRegularFile,
    NotDirectory,
    DirectoryScopeTooBroad,
    DirectoryScopeSensitive,
    EntryOutsideScope,
    EntryUnsupported,
    Symlink,
    TooLarge,
    CreatedTextTooLarge,
    InvalidEncoding,
    NotText,
    Changed,
    SystemAction(String),
    Io(String),
}

pub open spec fn file_error_code(e: FileError) -> Seq<char> {
    match e {
        FileError::ReferenceInvalid => "file_reference_invalid"@,
        FileError::EntryReferenceInvalid => "directory_entry_reference_invalid"@,
        FileError::InvalidName => "file_name_invalid"@,
        FileError::DirectoryNameInvalid => "directory_name_invalid"@,
        FileError::AlreadyExists => "file_already_exists"@,
        FileError::CopyDestinationInvalid => "file_copy_destination_invalid"@,
        FileError::CopyLimitExceeded => "file_copy_limit_exceeded"@,
        FileError::CopyIntoSource => "file_copy_into_source"@,
        FileError::MoveDestinationInvalid => "file_move_destination_invalid"@,
        FileError::MoveIntoSource => "file_move_into_source"@,
        FileError::Trash => "file_trash"@,
        FileError::BatchMoveInvalid => "file_batch_move_invalid"@,
        FileError::NotRegularFile => "file_not_regular"@,
        FileError::NotDirectory => "directory_not_found"@,
        FileError::DirectoryScopeTooBroad => "directory_scope_too_broad"@,
        FileError::DirectoryScopeSensitive => "directory_scope_sensitive"@,
        FileError::EntryOutsideScope => "directory_entry_outside_scope"@,
        FileError::EntryUnsupported => "directory_entry_unsupported"@,
        FileError::Symlink => "file_symlink_unsupported"@,
        FileError::TooLarge => "file_too_large"@,
        FileError::CreatedTextTooLarge => "file_content_too_large"@,
        FileError::InvalidEncoding => "file_encoding_invalid"@,
        FileError::NotText => "file_not_text"@,
        FileError::Changed => "file_changed"@,
        FileError::SystemAction(_) => "file_system_action"@,
        FileError::Io(_) => "file_io"@,
    }
}

impl FileError {
    /// The stable error code reported to the frontend.
    pub fn code(&self) -> (r: &'static str)
        ensures
            r@ == file_error_code(*self),
    {
        match self {
            FileError::ReferenceInvalid => "file_reference_invalid",
            FileError::EntryReferenceInvalid => "directory_entry_reference_invalid",
            FileError::InvalidName => "file_name_invalid",
            FileError::DirectoryNameInvalid => "directory_name_invalid",
            FileError::AlreadyExists => "file_already_exists",
            FileError::CopyDestinationInvalid => "file_copy_destination_invalid",
            FileError::CopyLimitExceeded => "file_copy_limit_exceeded",
            FileError::CopyIntoSource => "file_copy_into_source",
            FileError::MoveDestinationInvalid => "file_move_destination_invalid",
            FileError::MoveIntoSource => "file_move_into_source",
            FileError::Trash => "file_trash",
            FileError::BatchMoveInvalid => "file_batch_move_invalid",
            FileError::NotRegularFile => "file_not_regular",
            FileError::NotDirectory => "directory_not_found",
            FileError::DirectoryScopeTooBroad => "directory_scope_too_broad",
            FileError::DirectoryScopeSensitive => "directory_scope_sensitive",
            FileError::EntryOutsideScope => "directory_entry_outside_scope",
            FileError::EntryUnsupported => "directory_entry_unsupported",
            FileError::Symlink => "file_symlink_unsupported",
            FileError::TooLarge => "file_too_large",
            FileError::CreatedTextTooLarge => "file_content_too_large",
            FileError::InvalidEncoding => "file_encoding_invalid",
            FileError::NotText => "file_not_text",
            FileError::Changed => "file_changed",
            FileError::SystemAction(_) => "file_system_action",
            FileError::Io(_) => "file_io",
        }
    }
}

/// Failures of a model request.
#[derive(Debug, Clone, PartialEq, Eq)]
pub enum ModelError {
    MissingCredential,
    UnsupportedFormat(&'static str),
    Authentication { message: String },
    RateLimited { message: String },
    InvalidRequest { status: u16, message: String },
    Upstream { status: Option<u16>, message: String },
    Timeout,
    Transport(String),
    Protocol(String),
}

pub open spec fn model_error_code(e: ModelError) -> Seq<char> {
    match e {
        ModelError::MissingCredential => "model_credential_missing"@,
        ModelError::UnsupportedFormat(_) => "model_format_unsupported"@,
        ModelError::Authentication { .. } => "model_authentication"@,
        ModelError::RateLimited { .. } => "model_rate_limited"@,
        ModelError::InvalidRequest { .. } => "model_invalid_request"@,
        ModelError::Upstream { .. } => "model_upstream"@,
        ModelError::Timeout => "model_timeout"@,
        ModelError::Transport(_) => "model_transport"@,
        ModelError::Protocol(_) => "model_protocol"@,
    }
}

impl ModelError {
    /// The stable error code reported to the frontend.
    pub fn code(&self) -> (r: &'static str)
        ensures
            r@ == model_error_code(*self),
    {
        match self {
            ModelError::MissingCredential => "model_credential_missing",
            ModelError::UnsupportedFormat(_) => "model_format_unsupported",
            ModelError::Authentication { .. } => "model_authentication",
            ModelError::RateLimited { .. } => "model_rate_limited",
            ModelError::InvalidRequest { .. } => "model_invalid_request",
            ModelError::Upstream { .. } => "model_upstream",
            ModelError::Timeout => "model_timeout",
            ModelError::Transport(_) => "model_transport",
            ModelError::Protocol(_) => "model_protocol",
        }
    }
}

/// Failures of an agent run and of its tool calls.
#[derive(Debug, Clone, PartialEq, Eq)]
pub enum RuntimeError {
    StepLimit,
    ToolCallLimit,
    SkillNotFound(String),
    SkillToolUnavailable { skill: String, tool: String },
    ToolNotAllowed(String),
    ToolNotFound(String),
    InvalidToolArguments { name: String, message: String },
    ToolTimeout(String),
    ApprovalExpired(String),
    InvalidToolApproval(String),
    ToolOutputLimit(String),
    RepeatedToolCall(String),
    ToolExecution { name: String, message: String },
    File(FileError),
}

pub open spec fn runtime_error_code(e: RuntimeError) -> Seq<char> {
    match e {
        RuntimeError::StepLimit => "agent_step_limit"@,
        RuntimeError::ToolCallLimit => "agent_tool_call_limit"@,
        RuntimeError::SkillNotFound(_) => "skill_not_found"@,
        RuntimeError::SkillToolUnavailable { .. } => "skill_tool_unavailable"@,
        RuntimeError::ToolNotAllowed(_) => "tool_not_allowed"@,
        RuntimeError::ToolNotFound(_) => "tool_not_found"@,
        RuntimeError::InvalidToolArguments { .. } => "tool_invalid_arguments"@,
        RuntimeError::ToolTimeout(_) => "tool_timeout"@,
        RuntimeError::ApprovalExpired(_) => "tool_approval_expired"@,
        RuntimeError::InvalidToolApproval(_) => "tool_approval_invalid"@,
        RuntimeError::ToolOutputLimit(_) => "tool_output_limit"@,
        RuntimeError::RepeatedToolCall(_) => "tool_repeated_call"@,
        RuntimeError::ToolExecution { .. } => "tool_execution"@,
        RuntimeError::File(error) => file_error_code(error),
    }
}

impl RuntimeError {
    /// The stable error code reported to the frontend; file errors keep
    /// their own code.
    pub fn code(&self) -> (r: &'static str)
        ensures
            r@ == runtime_error_code(*self),
    {
        match self {
            RuntimeError::StepLimit => "agent_step_limit",
            RuntimeError::ToolCallLimit => "agent_tool_call_limit",
            RuntimeError::SkillNotFound(_) => "skill_not_found",
            RuntimeError::SkillToolUnavailable { .. } => "skill_tool_unavailable",
            RuntimeError::ToolNotAllowed(_) => "tool_not_allowed",
            RuntimeError::ToolNotFound(_) => "tool_not_found",
            RuntimeError::InvalidToolArguments { .. } => "tool_invalid_arguments",
            RuntimeError::ToolTimeout(_) => "tool_timeout",
            RuntimeError::ApprovalExpired(_) => "tool_approval_expired",
            RuntimeError::InvalidToolApproval(_) => "tool_approval_invalid",
            RuntimeError::ToolOutputLimit(_) => "tool_output_limit",
            RuntimeError::RepeatedToolCall(_) => "tool_repeated_call",
            RuntimeError::ToolExecution { .. } => "tool_execution",
            RuntimeError::File(error) => error.code(),
        }
    }
}

/// The variant of a file error, numbered in declaration order.
pub open spec fn file_error_kind(e: FileError) -> int {
    match e {
        FileError::ReferenceInvalid => 0,
        FileError::EntryReferenceInvalid => 1,
        FileError::InvalidName => 2,
        FileError::DirectoryNameInvalid => 3,
        FileError::AlreadyExists => 4,
        FileError::CopyDestinationInvalid => 5,
        FileError::CopyLimitExceeded => 6,
        FileError::CopyIntoSource => 7,
        FileError::MoveDestinationInvalid => 8,
        FileError::MoveIntoSource => 9,
        FileError::Trash => 10,
        FileError::BatchMoveInvalid => 11,
        FileError::NotRegularFile => 12,
        FileError::NotDirectory => 13,
        FileError::DirectoryScopeTooBroad => 14,
        FileError::DirectoryScopeSensitive => 15,
        FileError::EntryOutsideScope => 16,
        FileError::EntryUnsupported => 17,
        FileError::Symlink => 18,
        FileError::TooLarge => 19,
        FileError::CreatedTextTooLarge => 20,
        FileError::InvalidEncoding => 21,
        FileError::NotText => 22,
        FileError::Changed => 23,
        FileError::SystemAction(_) => 24,
        FileError::Io(_) => 25,
    }
}

/// Different kinds of file errors have different codes.
pub proof fn lemma_file_error_codes_distinct(a: FileError, b: FileError)
    ensures
        file_error_kind(a) != file_error_kind(b) ==> file_error_code(a) != file_error_code(b),
{
    reveal_strlit("file_reference_invalid");
    reveal_strlit("directory_entry_reference_invalid");
    reveal_strlit("file_name_invalid");
    reveal_strlit("directory_name_invalid");
    reveal_strlit("file_already_exists");
    reveal_strlit("file_copy_destination_invalid");
    reveal_strlit("file_copy_limit_exceeded");
    reveal_strlit("file_copy_into_source");
    reveal_strlit("file_move_destination_invalid");
    reveal_strlit("file_move_into_source");
    reveal_strlit("file_trash");
    reveal_strlit("file_batch_move_invalid");
    reveal_strlit("file_not_regular");
    reveal_strlit("directory_not_found");
    reveal_strlit("directory_scope_too_broad");
    reveal_strlit("directory_scope_sensitive");
    reveal_strlit("directory_entry_outside_scope");
    reveal_strlit("directory_entry_unsupported");
    reveal_strlit("file_symlink_unsupported");
    reveal_strlit("file_too_large");
    reveal_strlit("file_content_too_large");
    reveal_strlit("file_encoding_invalid");
    reveal_strlit("file_not_text");
    reveal_strlit("file_changed");
    reveal_strlit("file_system_action");
    reveal_strlit("file_io");
    if file_error_code(a) == file_error_code(b) {
        assert(file_error_code(a).len() == file_error_code(b).len());
        assert(file_error_code(a)[5] == file_error_code(b)[5]);
        assert(file_error_code(a)[16] == file_error_code(b)[16]);
    }
}

/// The variant of a runtime error, numbered in declaration order.
pub open spec fn runtime_error_kind(e: RuntimeError) -> int {
    match e {
        RuntimeError::StepLimit => 0,
        RuntimeError::ToolCallLimit => 1,
        RuntimeError::SkillNotFound(_) => 2,
        RuntimeError::SkillToolUnavailable { .. } => 3,
        RuntimeError::ToolNotAllowed(_) => 4,
        RuntimeError::ToolNotFound(_) => 5,
        RuntimeError::InvalidToolArguments { .. } => 6,
        RuntimeError::ToolTimeout(_) => 7,
        RuntimeError::ApprovalExpired(_) => 8,
        RuntimeError::InvalidToolApproval(_) => 9,
        RuntimeError::ToolOutputLimit(_) => 10,
        RuntimeError::RepeatedToolCall(_) => 11,
        RuntimeError::ToolExecution { .. } => 12,
        RuntimeError::File(_) => 13,
    }
}

/// Runtime errors of different kinds, and file errors of different kinds
/// inside them, have different codes.
pub proof fn lemma_runtime_error_codes_distinct(a: RuntimeError, b: RuntimeError)
    ensures
        runtime_error_code(a) == runtime_error_code(b) ==> runtime_error_kind(a) == runtime_error_kind(b),
        a is File && b is File && runtime_error_code(a) == runtime_error_code(b) ==> file_error_kind(
            a->File_0,
        ) == file_error_kind(b->File_0),
{
    reveal_strlit("file_reference_invalid");
    reveal_strlit("directory_entry_reference_invalid");
    reveal_strlit("file_name_invalid");
    reveal_strlit("directory_name_invalid");
    reveal_strlit("file_already_exists");
    reveal_strlit("file_copy_destination_invalid");
    reveal_strlit("file_copy_limit_exceeded");
    reveal_strlit("file_copy_into_source");
    reveal_strlit("file_move_destination_invalid");
    reveal_strlit("file_move_into_source");
    reveal_strlit("file_trash");
    reveal_strlit("file_batch_move_invalid");
    reveal_strlit("file_not_regular");
    reveal_strlit("directory_not_found");
    reveal_strlit("directory_scope_too_broad");
    reveal_strlit("directory_scope_sensitive");
    reveal_strlit("directory_entry_outside_scope");
    reveal_strlit("directory_entry_unsupported");
    reveal_strlit("file_symlink_unsupported");
    reveal_strlit("file_too_large");
    reveal_strlit("file_content_too_large");
    reveal_strlit("file_encoding_invalid");
    reveal_strlit("file_not_text");
    reveal_strlit("file_changed");
    reveal_strlit("file_system_action");
    reveal_strlit("file_io");
    reveal_strlit("agent_step_limit");
    reveal_strlit("agent_tool_call_limit");
    reveal_strlit("skill_not_found");
    reveal_strlit("skill_tool_unavailable");
    reveal_strlit("tool_not_allowed");
    reveal_strlit("tool_not_found");
    reveal_strlit("tool_invalid_arguments");
    reveal_strlit("tool_timeout");
    reveal_strlit("tool_approval_expired");
    reveal_strlit("tool_approval_invalid");
    reveal_strlit("tool_output_limit");
    reveal_strlit("tool_repeated_call");
    reveal_strlit("tool_execution");
    match (a, b) {
        (RuntimeError::File(x), RuntimeError::File(y)) => {
            lemma_file_error_codes_distinct(x, y);
        },
        _ => {
            if runtime_error_code(a) == runtime_error_code(b) {
                assert(runtime_error_code(a).len() == runtime_error_code(b).len());
                assert(runtime_error_code(a)[0] == runtime_error_code(b)[0]);
                assert(runtime_error_code(a)[5] == runtime_error_code(b)[5]);
                assert(runtime_error_code(a)[14] == runtime_error_code(b)[14]);
                assert(runtime_error_code(a)[16] == runtime_error_code(b)[16]);
            }
        },
    }
}

/// The decimal digit of `d` (below 10).
pub open spec fn digit_char(d: int) -> char {
    if d == 0 { '0' } else if d == 1 { '1' } else if d == 2 { '2' } else if d == 3 { '3' }
    else if d == 4 { '4' } else if d == 5 { '5' } else if d == 6 { '6' } else if d == 7 { '7' }
    else if d == 8 { '8' } else { '9' }
}

/// `n` written in decimal, as `Display` writes an integer.
pub open spec fn decimal_text(n: nat) -> Seq<char>
    decreases n,
{
    if n < 10 {
        seq![digit_char(n as int)]
    } else {
        decimal_text(n / 10) + seq![digit_char((n % 10) as int)]
    }
}

fn digit_of(d: u16) -> (c: char)
    requires
        d < 10,
    ensures
        c == digit_char(d as int),
{
    if d == 0 { '0' } else if d == 1 { '1' } else if d == 2 { '2' } else if d == 3 { '3' }
    else if d == 4 { '4' } else if d == 5 { '5' } else if d == 6 { '6' } else if d == 7 { '7' }
    else if d == 8 { '8' } else { '9' }
}

/// Appends `n` in decimal to `text`.
fn push_decimal(text: &mut String, n: u16)
    ensures
        final(text)@ == old(text)@ + decimal_text(n as nat),
    decreases n,
{
    if n >= 10 {
        push_decimal(text, n / 10);
    }
    crate::text::push_char(text, digit_of(n % 10));
    assert(decimal_text(n as nat) == if n < 10 {
        seq![digit_char(n as int)]
    } else {
        decimal_text((n / 10) as nat) + seq![digit_char((n % 10) as int)]
    });
}

/// The message of a file error.
pub open spec fn file_error_message(e: FileError) -> Seq<char> {
    match e {
        FileError::ReferenceInvalid => "selected file reference is invalid or has expired"@,
        FileError::EntryReferenceInvalid => "directory entry reference is invalid or has expired"@,
        FileError::InvalidName => "selected file name is invalid"@,
        FileError::DirectoryNameInvalid => "directory name is invalid"@,
        FileError::AlreadyExists => "a file or directory with the requested name already exists"@,
        FileError::CopyDestinationInvalid => "copy destination name is invalid"@,
        FileError::CopyLimitExceeded => "copy exceeds the limit of 100 entries, 8 levels, or 16 MiB"@,
        FileError::CopyIntoSource => "a directory cannot be copied into itself or one of its descendants"@,
        FileError::MoveDestinationInvalid => "move destination name is invalid"@,
        FileError::MoveIntoSource => "a directory cannot be moved into itself or one of its descendants"@,
        FileError::Trash => "moving the entry to the system trash failed"@,
        FileError::BatchMoveInvalid => "batch move must contain 1 to 20 independent entries"@,
        FileError::NotRegularFile => "selected path must be a regular file"@,
        FileError::NotDirectory => "selected path must be a directory"@,
        FileError::DirectoryScopeTooBroad => "filesystem roots cannot be authorized as directory scopes"@,
        FileError::DirectoryScopeSensitive => "home and system configuration roots cannot be authorized as directory scopes"@,
        FileError::EntryOutsideScope => "directory entry is outside the authorized scope"@,
        FileError::EntryUnsupported => "directory entry type is not supported"@,
        FileError::Symlink => "symbolic links are not supported"@,
        FileError::TooLarge => "selected file exceeds the 16 KiB size limit"@,
        FileError::CreatedTextTooLarge => "text file content exceeds the 32 KiB size limit"@,
        FileError::InvalidEncoding => "selected file is not valid UTF-8"@,
        FileError::NotText => "selected file contains non-text control characters"@,
        FileError::Changed => "selected file changed after it was authorized"@,
        FileError::SystemAction(detail) => "system file action failed: "@ + detail@,
        FileError::Io(detail) => "file system access failed: "@ + detail@,
    }
}

impl FileError {
    /// The message shown with the error's code.
    pub fn message(&self) -> (r: String)
        ensures
            r@ == file_error_message(*self),
    {
        match self {
            FileError::ReferenceInvalid => "selected file reference is invalid or has expired".to_owned(),
            FileError::EntryReferenceInvalid => "directory entry reference is invalid or has expired".to_owned(),
            FileError::InvalidName => "selected file name is invalid".to_owned(),
            FileError::DirectoryNameInvalid => "directory name is invalid".to_owned(),
            FileError::AlreadyExists => "a file or directory with the requested name already exists".to_owned(),
            FileError::CopyDestinationInvalid => "copy destination name is invalid".to_owned(),
            FileError::CopyLimitExceeded => "copy exceeds the limit of 100 entries, 8 levels, or 16 MiB".to_owned(),
            FileError::CopyIntoSource => "a directory cannot be copied into itself or one of its descendants".to_owned(),
            FileError::MoveDestinationInvalid => "move destination name is invalid".to_owned(),
            FileError::MoveIntoSource => "a directory cannot be moved into itself or one of its descendants".to_owned(),
            FileError::Trash => "moving the entry to the system trash failed".to_owned(),
            FileError::BatchMoveInvalid => "batch move must contain 1 to 20 independent entries".to_owned(),
            FileError::NotRegularFile => "selected path must be a regular file".to_owned(),
            FileError::NotDirectory => "selected path must be a directory".to_owned(),
            FileError::DirectoryScopeTooBroad => "filesystem roots cannot be authorized as directory scopes".to_owned(),
            FileError::DirectoryScopeSensitive => "home and system configuration roots cannot be authorized as directory scopes".to_owned(),
            FileError::EntryOutsideScope => "directory entry is outside the authorized scope".to_owned(),
            FileError::EntryUnsupported => "directory entry type is not supported".to_owned(),
            FileError::Symlink => "symbolic links are not supported".to_owned(),
            FileError::TooLarge => "selected file exceeds the 16 KiB size limit".to_owned(),
            FileError::CreatedTextTooLarge => "text file content exceeds the 32 KiB size limit".to_owned(),
            FileError::InvalidEncoding => "selected file is not valid UTF-8".to_owned(),
            FileError::NotText => "selected file contains non-text control characters".to_owned(),
            FileError::Changed => "selected file changed after it was authorized".to_owned(),
            FileError::SystemAction(detail) => concat_str("system file action failed: ", detail.as_str()),
            FileError::Io(detail) => concat_str("file system access failed: ", detail.as_str()),
        }
    }
}

/// The message of a model error.
pub open spec fn model_error_message(e: ModelError) -> Seq<char> {
    match e {
        ModelError::MissingCredential => "model provider credential is missing"@,
        ModelError::UnsupportedFormat(format) => "unsupported model API format: "@ + format@,
        ModelError::Authentication { message } => "model authentication failed: "@ + message@,
        ModelError::RateLimited { message } => "model request was rate limited: "@ + message@,
        ModelError::InvalidRequest { status, message } => "invalid model request ("@ + decimal_text(
            status as nat,
        ) + "): "@ + message@,
        ModelError::Upstream { status, message } => "model provider failed ("@ + match status {
            Some(code) => "Some("@ + decimal_text(code as nat) + ")"@,
            None => "None"@,
        } + "): "@ + message@,
        ModelError::Timeout => "model request timed out"@,
        ModelError::Transport(detail) => "model transport failed: "@ + detail@,
        ModelError::Protocol(detail) => "invalid model stream: "@ + detail@,
    }
}

impl ModelError {
    /// The message shown with the error's code.
    pub fn message(&self) -> (r: String)
        ensures
            r@ == model_error_message(*self),
    {
        match self {
            ModelError::MissingCredential => "model provider credential is missing".to_owned(),
            ModelError::UnsupportedFormat(format) => concat_str("unsupported model API format: ", format),
            ModelError::Authentication { message } => concat_str("model authentication failed: ", message.as_str()),
            ModelError::RateLimited { message } => concat_str("model request was rate limited: ", message.as_str()),
            ModelError::InvalidRequest { status, message } => {
                let mut text = "invalid model request (".to_owned();
                push_decimal(&mut text, *status);
                text.append("): ");
                text.append(message.as_str());
                text
            },
            ModelError::Upstream { status, message } => {
                let mut text = "model provider failed (".to_owned();
                match status {
                    Some(code) => {
                        text.append("Some(");
                        push_decimal(&mut text, *code);
                        text.append(")");
                    },
                    None => text.append("None"),
                }
                text.append("): ");
                text.append(message.as_str());
                text
            },
            ModelError::Timeout => "model request timed out".to_owned(),
            ModelError::Transport(detail) => concat_str("model transport failed: ", detail.as_str()),
            ModelError::Protocol(detail) => concat_str("invalid model stream: ", detail.as_str()),
        }
    }
}

/// The message of a runtime error.
pub open spec fn runtime_error_message(e: RuntimeError) -> Seq<char> {
    match e {
        RuntimeError::StepLimit => "agent reached the maximum model steps"@,
        RuntimeError::ToolCallLimit => "agent reached the maximum tool calls"@,
        RuntimeError::SkillNotFound(id) => "skill is not registered: "@ + id@,
        RuntimeError::SkillToolUnavailable { skill, tool } => "skill "@ + skill@
            + " requires unavailable tool: "@ + tool@,
        RuntimeError::ToolNotAllowed(name) => "tool is not allowed for this run: "@ + name@,
        RuntimeError::ToolNotFound(name) => "tool is not registered: "@ + name@,
        RuntimeError::InvalidToolArguments { name, message } => "invalid arguments for tool "@
            + name@ + ": "@ + message@,
        RuntimeError::ToolTimeout(name) => "tool call timed out: "@ + name@,
        RuntimeError::ApprovalExpired(name) => "tool approval expired: "@ + name@,
        RuntimeError::InvalidToolApproval(name) => "tool approval is missing or does not match arguments: "@
            + name@,
        RuntimeError::ToolOutputLimit(name) => "tool output exceeded the size limit: "@ + name@,
        RuntimeError::RepeatedToolCall(name) => "repeated tool call detected: "@ + name@,
        RuntimeError::ToolExecution { name, message } => "tool execution failed for "@ + name@
            + ": "@ + message@,
        RuntimeError::File(error) => "file tool failed: "@ + file_error_message(error),
    }
}

fn join3(a: &str, b: &str, c: &str, d: &str) -> (r: String)
    ensures
        r@ == a@ + b@ + c@ + d@,
{
    let mut text = concat_str(a, b);
    text.append(c);
    text.append(d);
    text
}

impl RuntimeError {
    /// The message shown with the error's code.
    pub fn message(&self) -> (r: String)
        ensures
            r@ == runtime_error_message(*self),
    {
        match self {
            RuntimeError::StepLimit => "agent reached the maximum model steps".to_owned(),
            RuntimeError::ToolCallLimit => "agent reached the maximum tool calls".to_owned(),
            RuntimeError::SkillNotFound(id) => concat_str("skill is not registered: ", id.as_str()),
            RuntimeError::SkillToolUnavailable { skill, tool } => join3(
                "skill ",
                skill.as_str(),
                " requires unavailable tool: ",
                tool.as_str(),
            ),
            RuntimeError::ToolNotAllowed(name) => concat_str("tool is not allowed for this run: ", name.as_str()),
            RuntimeError::ToolNotFound(name) => concat_str("tool is not registered: ", name.as_str()),
            RuntimeError::InvalidToolArguments { name, message } => join3(
                "invalid arguments for tool ",
                name.as_str(),
                ": ",
                message.as_str(),
            ),
            RuntimeError::ToolTimeout(name) => concat_str("tool call timed out: ", name.as_str()),
            RuntimeError::ApprovalExpired(name) => concat_str("tool approval expired: ", name.as_str()),
            RuntimeError::InvalidToolApproval(name) => concat_str(
                "tool approval is missing or does not match arguments: ",
                name.as_str(),
            ),
            RuntimeError::ToolOutputLimit(name) => concat_str("tool output exceeded the size limit: ", name.as_str()),
            RuntimeError::RepeatedToolCall(name) => concat_str("repeated tool call detected: ", name.as_str()),
            RuntimeError::ToolExecution { name, message } => join3(
                "tool execution failed for ",
                name.as_str(),
                ": ",
                message.as_str(),
            ),
            RuntimeError::File(error) => {
                let detail = error.message();
                concat_str("file tool failed: ", detail.as_str())
            },
        }
    }
}

/// The errors the application reports to the frontend, with a stable code
/// and a message.
#[derive(Debug, Clone, PartialEq, Eq)]
pub enum AppError {
    Model(ModelError),
    Agent(RuntimeError),
    Io(String),
    RunState(String),
    Other(String),
}

pub open spec fn app_error_code(e: AppError) -> Seq<char> {
    match e {
        AppError::Model(error) => model_error_code(error),
        AppError::Agent(error) => runtime_error_code(error),
        AppError::Io(_) => "io"@,
        AppError::RunState(_) => "run_state"@,
        AppError::Other(_) => "other"@,
    }
}

pub open spec fn app_error_message(e: AppError) -> Seq<char> {
    match e {
        AppError::Model(error) => "model: "@ + model_error_message(error),
        AppError::Agent(error) => "agent: "@ + runtime_error_message(error),
        AppError::Io(detail) => "io: "@ + detail@,
        AppError::RunState(detail) => "run state: "@ + detail@,
        AppError::Other(detail) => detail@,
    }
}

impl AppError {
    /// The stable error code reported to the frontend; model and agent
    /// errors keep their own code.
    pub fn code(&self) -> (r: &'static str)
        ensures
            r@ == app_error_code(*self),
    {
        match self {
            AppError::Model(error) => error.code(),
            AppError::Agent(error) => error.code(),
            AppError::Io(_) => "io",
            AppError::RunState(_) => "run_state",
            AppError::Other(_) => "other",
        }
    }

    /// The message reported with the code.
    pub fn message(&self) -> (r: String)
        ensures
            r@ == app_error_message(*self),
    {
        match self {
            AppError::Model(error) => {
                let detail = error.message();
                concat_str("model: ", detail.as_str())
            },
            AppError::Agent(error) => {
                let detail = error.message();
                concat_str("agent: ", detail.as_str())
            },
            AppError::Io(detail) => concat_str("io: ", detail.as_str()),
            AppError::RunState(detail) => concat_str("run state: ", detail.as_str()),
            AppError::Other(detail) => detail.clone(),
        }
    }
}

impl From<FileError> for RuntimeError {
    fn from(error: FileError) -> (r: Self) {
        RuntimeError::File(error)
    }
}

impl vstd::std_specs::convert::FromSpecImpl<FileError> for RuntimeError {
    open spec fn obeys_from_spec() -> bool {
        true
    }

    open spec fn from_spec(error: FileError) -> RuntimeError {
        RuntimeError::File(error)
    }
}

} // verus!
