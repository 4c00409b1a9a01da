//! The built-in tools of the agent: what each is called and offers, how
//! risky it is, whether its calls need approval, and what arguments it
//! accepts before it runs.

use vstd::prelude::*;
use vstd::utf8::encode_utf8;

use crate::agent::ToolDefinition;
use crate::errors::{FileError, RuntimeError};
use crate::files::registry::{has_entry, EntryRegistry};
use crate::files::scopes::{AuthorizedDirectory, AuthorizedFile, DirectoryView, FileView};
use crate::files::{
    content_digest_of, created_text_file_error, digest, valid_entry_name,
    validate_copy_destination_name, validate_created_directory, validate_created_text_file,
    validate_move_destination_name, DirectorySearchKind,
};
use crate::paths::{
    file_extension, name_extension, path_components, path_parts, single_normal, PartView,
    PathPart,
};
use crate::protocol::agent_run::{ToolApprovalPolicy, ToolRiskLevel};
use crate::text::{
    chars_have_control, chars_of, concat_str, has_control, str_eq, trim, trim_chars,
};

verus! {

/// The JSON Schema shared by the tools that act on one listed entry.
pub open spec fn directory_entry_schema() -> Seq<char> {
    "{\"type\":\"object\",\"properties\":{\"targetReferenceId\":{\"type\":\"string\",\"description\":\"The opaque targetReferenceId returned for the entry.\"},\"relativePath\":{\"type\":\"string\",\"description\":\"The matching relativePath returned with the target reference, used for a clear approval summary.\"}},\"required\":[\"targetReferenceId\",\"relativePath\"],\"additionalProperties\":false}"@
}

/// The JSON Schema shared by the tools that act on one listed entry.
pub fn directory_entry_input_schema() -> (r: String)
    ensures
        r@ == directory_entry_schema(),
{
    "{\"type\":\"object\",\"properties\":{\"targetReferenceId\":{\"type\":\"string\",\"description\":\"The opaque targetReferenceId returned for the entry.\"},\"relativePath\":{\"type\":\"string\",\"description\":\"The matching relativePath returned with the target reference, used for a clear approval summary.\"}},\"required\":[\"targetReferenceId\",\"relativePath\"],\"additionalProperties\":false}".to_owned()
}

/// A tool as offered to the model.
pub struct ToolSpec {
    pub name: Seq<char>,
    pub description: Seq<char>,
    pub input_schema: Seq<char>,
}

pub open spec fn tool_view(definition: ToolDefinition) -> ToolSpec {
    ToolSpec {
        name: definition.name@,
        description: definition.description@,
        input_schema: definition.input_schema@,
    }
}

pub open spec fn tool_views(definitions: Seq<ToolDefinition>) -> Seq<ToolSpec> {
    definitions.map_values(|d: ToolDefinition| tool_view(d))
}

/// The built-in tools, in the order they are offered.
pub open spec fn builtin_tools() -> Seq<ToolSpec> {
    seq![
        ToolSpec {
            name: "current_time"@,
            description: "Get the current date and time for a UTC offset. Use this when the user asks for the current time or date."@,
            input_schema: "{\"type\":\"object\",\"properties\":{\"utcOffset\":{\"type\":\"string\",\"description\":\"UTC offset in ±HH:MM format, for example +08:00. Defaults to +00:00.\"}},\"additionalProperties\":false}"@,
        },
        ToolSpec {
            name: "list_selected_directory"@,
            description: "List up to 100 direct children of a directory explicitly selected by the user. This does not recurse or expose local paths."@,
            input_schema: "{\"type\":\"object\",\"properties\":{\"referenceId\":{\"type\":\"string\",\"description\":\"The opaque referenceId of the selected directory.\"}},\"required\":[\"referenceId\"],\"additionalProperties\":false}"@,
        },
        ToolSpec {
            name: "search_selected_directory"@,
            description: "Search file and directory names within a directory explicitly selected by the user. Returns up to 50 relative paths, searches at most 4 levels deep, skips symbolic links, and never exposes local absolute paths."@,
            input_schema: "{\"type\":\"object\",\"properties\":{\"referenceId\":{\"type\":\"string\",\"description\":\"The opaque referenceId of the selected directory.\"},\"query\":{\"type\":\"string\",\"minLength\":1,\"maxLength\":128,\"description\":\"Case-insensitive text to match within each file or directory name.\"},\"kind\":{\"type\":\"string\",\"enum\":[\"any\",\"file\",\"directory\"],\"description\":\"Optional result type filter. Defaults to any.\"}},\"required\":[\"referenceId\",\"query\"],\"additionalProperties\":false}"@,
        },
        ToolSpec {
            name: "create_text_file_in_selected_directory"@,
            description: "Create a new UTF-8 .txt file at the root of a directory explicitly selected by the user. Existing files are never overwritten. This always requires user approval."@,
            input_schema: "{\"type\":\"object\",\"properties\":{\"referenceId\":{\"type\":\"string\",\"description\":\"The opaque referenceId of the selected directory.\"},\"fileName\":{\"type\":\"string\",\"description\":\"A plain .txt file name without directories, for example notes.txt.\"},\"content\":{\"type\":\"string\",\"description\":\"UTF-8 text content, limited to 32 KiB.\"}},\"required\":[\"referenceId\",\"fileName\",\"content\"],\"additionalProperties\":false}"@,
        },
        ToolSpec {
            name: "create_directory_in_selected_directory"@,
            description: "Create one new child directory at the root of a directory explicitly selected by the user. Existing entries are never replaced. This always requires user approval."@,
            input_schema: "{\"type\":\"object\",\"properties\":{\"referenceId\":{\"type\":\"string\",\"description\":\"The opaque referenceId of the selected directory.\"},\"directoryName\":{\"type\":\"string\",\"description\":\"A plain directory name without path separators.\"}},\"required\":[\"referenceId\",\"directoryName\"],\"additionalProperties\":false}"@,
        },
        ToolSpec {
            name: "copy_directory_entry"@,
            description: "Copy one previously listed or searched file or directory within the same user-authorized directory. The destination may be the selected root or a previously listed or searched directory. Existing entries are never overwritten. Copies are limited to 100 entries, 8 levels, and 16 MiB, and always require user approval."@,
            input_schema: "{\"type\":\"object\",\"properties\":{\"referenceId\":{\"type\":\"string\",\"description\":\"The opaque referenceId of the selected directory.\"},\"sourceTargetReferenceId\":{\"type\":\"string\",\"description\":\"The opaque targetReferenceId of the source entry.\"},\"sourceRelativePath\":{\"type\":\"string\",\"description\":\"The matching source relativePath returned with the source reference.\"},\"destinationDirectoryTargetReferenceId\":{\"type\":\"string\",\"description\":\"Optional opaque targetReferenceId of a destination directory. Omit to use the selected root.\"},\"destinationDirectoryRelativePath\":{\"type\":\"string\",\"description\":\"Required matching relativePath when a destination directory reference is supplied.\"},\"destinationName\":{\"type\":\"string\",\"description\":\"A plain file or directory name for the copy, without path separators.\"}},\"required\":[\"referenceId\",\"sourceTargetReferenceId\",\"sourceRelativePath\",\"destinationName\"],\"additionalProperties\":false}"@,
        },
        ToolSpec {
            name: "move_directory_entry"@,
            description: "Move or rename one previously listed or searched file or directory within the same user-authorized directory. The destination may be the selected root or a previously listed or searched directory. Existing entries are never overwritten, directories cannot be moved into themselves, and this always requires user approval."@,
            input_schema: "{\"type\":\"object\",\"properties\":{\"referenceId\":{\"type\":\"string\",\"description\":\"The opaque referenceId of the selected directory.\"},\"sourceTargetReferenceId\":{\"type\":\"string\",\"description\":\"The opaque targetReferenceId of the source entry.\"},\"sourceRelativePath\":{\"type\":\"string\",\"description\":\"The matching source relativePath returned with the source reference.\"},\"destinationDirectoryTargetReferenceId\":{\"type\":\"string\",\"description\":\"Optional opaque targetReferenceId of a destination directory. Omit to use the selected root.\"},\"destinationDirectoryRelativePath\":{\"type\":\"string\",\"description\":\"Required matching relativePath when a destination directory reference is supplied.\"},\"destinationName\":{\"type\":\"string\",\"description\":\"A plain name for the moved entry, without path separators.\"}},\"required\":[\"referenceId\",\"sourceTargetReferenceId\",\"sourceRelativePath\",\"destinationName\"],\"additionalProperties\":false}"@,
        },
        ToolSpec {
            name: "trash_directory_entry"@,
            description: "Move one previously listed or searched file or directory to the operating system trash or recycle bin. This never permanently deletes the entry and always requires user approval."@,
            input_schema: directory_entry_schema(),
        },
        ToolSpec {
            name: "get_directory_entry_metadata"@,
            description: "Get size, modification time, entry type, and file extension for an entry returned by list_selected_directory or search_selected_directory."@,
            input_schema: directory_entry_schema(),
        },
        ToolSpec {
            name: "open_directory_entry"@,
            description: "Open a previously listed or searched directory entry with the system default application. This always requires user approval."@,
            input_schema: directory_entry_schema(),
        },
        ToolSpec {
            name: "reveal_directory_entry"@,
            description: "Reveal a previously listed or searched directory entry in the system file manager. This always requires user approval."@,
            input_schema: directory_entry_schema(),
        },
        ToolSpec {
            name: "save_text_note"@,
            description: "Create a new UTF-8 text note in the app's managed agent-files directory. Existing files are never overwritten. This changes the filesystem and always requires user approval."@,
            input_schema: "{\"type\":\"object\",\"properties\":{\"fileName\":{\"type\":\"string\",\"description\":\"A plain .txt file name without directories, for example notes.txt.\"},\"content\":{\"type\":\"string\",\"description\":\"Text to save.\"}},\"required\":[\"fileName\",\"content\"],\"additionalProperties\":false}"@,
        },
        ToolSpec {
            name: "read_selected_text_file"@,
            description: "Read the UTF-8 contents of a text file explicitly attached to this message. Only the supplied opaque referenceId is accepted."@,
            input_schema: "{\"type\":\"object\",\"properties\":{\"referenceId\":{\"type\":\"string\",\"description\":\"The opaque referenceId of the attached file.\"}},\"required\":[\"referenceId\"],\"additionalProperties\":false}"@,
        },
    ]
}

/// The names of the built-in tools.
pub open spec fn builtin_tool_names() -> Seq<Seq<char>> {
    builtin_tools().map_values(|t: ToolSpec| t.name)
}

/// The built-in tools, in the order they are offered.
pub fn builtin_definitions() -> (r: Vec<ToolDefinition>)
    ensures
        tool_views(r@) == builtin_tools(),
{
    let mut defs: Vec<ToolDefinition> = Vec::new();
    defs.push(
        ToolDefinition {
            name: "current_time".to_owned(),
            description: "Get the current date and time for a UTC offset. Use this when the user asks for the current time or date.".to_owned(),
            input_schema: "{\"type\":\"object\",\"properties\":{\"utcOffset\":{\"type\":\"string\",\"description\":\"UTC offset in ±HH:MM format, for example +08:00. Defaults to +00:00.\"}},\"additionalProperties\":false}".to_owned(),
        },
    );
    defs.push(
        ToolDefinition {
            name: "list_selected_directory".to_owned(),
            description: "List up to 100 direct children of a directory explicitly selected by the user. This does not recurse or expose local paths.".to_owned(),
            input_schema: "{\"type\":\"object\",\"properties\":{\"referenceId\":{\"type\":\"string\",\"description\":\"The opaque referenceId of the selected directory.\"}},\"required\":[\"referenceId\"],\"additionalProperties\":false}".to_owned(),
        },
    );
    defs.push(
        ToolDefinition {
            name: "search_selected_directory".to_owned(),
            description: "Search file and directory names within a directory explicitly selected by the user. Returns up to 50 relative paths, searches at most 4 levels deep, skips symbolic links, and never exposes local absolute paths.".to_owned(),
            input_schema: "{\"type\":\"object\",\"properties\":{\"referenceId\":{\"type\":\"string\",\"description\":\"The opaque referenceId of the selected directory.\"},\"query\":{\"type\":\"string\",\"minLength\":1,\"maxLength\":128,\"description\":\"Case-insensitive text to match within each file or directory name.\"},\"kind\":{\"type\":\"string\",\"enum\":[\"any\",\"file\",\"directory\"],\"description\":\"Optional result type filter. Defaults to any.\"}},\"required\":[\"referenceId\",\"query\"],\"additionalProperties\":false}".to_owned(),
        },
    );
    defs.push(
        ToolDefinition {
            name: "create_text_file_in_selected_directory".to_owned(),
            description: "Create a new UTF-8 .txt file at the root of a directory explicitly selected by the user. Existing files are never overwritten. This always requires user approval.".to_owned(),
            input_schema: "{\"type\":\"object\",\"properties\":{\"referenceId\":{\"type\":\"string\",\"description\":\"The opaque referenceId of the selected directory.\"},\"fileName\":{\"type\":\"string\",\"description\":\"A plain .txt file name without directories, for example notes.txt.\"},\"content\":{\"type\":\"string\",\"description\":\"UTF-8 text content, limited to 32 KiB.\"}},\"required\":[\"referenceId\",\"fileName\",\"content\"],\"additionalProperties\":false}".to_owned(),
        },
    );
    defs.push(
        ToolDefinition {
            name: "create_directory_in_selected_directory".to_owned(),
            description: "Create one new child directory at the root of a directory explicitly selected by the user. Existing entries are never replaced. This always requires user approval.".to_owned(),
            input_schema: "{\"type\":\"object\",\"properties\":{\"referenceId\":{\"type\":\"string\",\"description\":\"The opaque referenceId of the selected directory.\"},\"directoryName\":{\"type\":\"string\",\"description\":\"A plain directory name without path separators.\"}},\"required\":[\"referenceId\",\"directoryName\"],\"additionalProperties\":false}".to_owned(),
        },
    );
    defs.push(
        ToolDefinition {
            name: "copy_directory_entry".to_owned(),
            description: "Copy one previously listed or searched file or directory within the same user-authorized directory. The destination may be the selected root or a previously listed or searched directory. Existing entries are never overwritten. Copies are limited to 100 entries, 8 levels, and 16 MiB, and always require user approval.".to_owned(),
            input_schema: "{\"type\":\"object\",\"properties\":{\"referenceId\":{\"type\":\"string\",\"description\":\"The opaque referenceId of the selected directory.\"},\"sourceTargetReferenceId\":{\"type\":\"string\",\"description\":\"The opaque targetReferenceId of the source entry.\"},\"sourceRelativePath\":{\"type\":\"string\",\"description\":\"The matching source relativePath returned with the source reference.\"},\"destinationDirectoryTargetReferenceId\":{\"type\":\"string\",\"description\":\"Optional opaque targetReferenceId of a destination directory. Omit to use the selected root.\"},\"destinationDirectoryRelativePath\":{\"type\":\"string\",\"description\":\"Required matching relativePath when a destination directory reference is supplied.\"},\"destinationName\":{\"type\":\"string\",\"description\":\"A plain file or directory name for the copy, without path separators.\"}},\"required\":[\"referenceId\",\"sourceTargetReferenceId\",\"sourceRelativePath\",\"destinationName\"],\"additionalProperties\":false}".to_owned(),
        },
    );
    defs.push(
        ToolDefinition {
            name: "move_directory_entry".to_owned(),
            description: "Move or rename one previously listed or searched file or directory within the same user-authorized directory. The destination may be the selected root or a previously listed or searched directory. Existing entries are never overwritten, directories cannot be moved into themselves, and this always requires user approval.".to_owned(),
            input_schema: "{\"type\":\"object\",\"properties\":{\"referenceId\":{\"type\":\"string\",\"description\":\"The opaque referenceId of the selected directory.\"},\"sourceTargetReferenceId\":{\"type\":\"string\",\"description\":\"The opaque targetReferenceId of the source entry.\"},\"sourceRelativePath\":{\"type\":\"string\",\"description\":\"The matching source relativePath returned with the source reference.\"},\"destinationDirectoryTargetReferenceId\":{\"type\":\"string\",\"description\":\"Optional opaque targetReferenceId of a destination directory. Omit to use the selected root.\"},\"destinationDirectoryRelativePath\":{\"type\":\"string\",\"description\":\"Required matching relativePath when a destination directory reference is supplied.\"},\"destinationName\":{\"type\":\"string\",\"description\":\"A plain name for the moved entry, without path separators.\"}},\"required\":[\"referenceId\",\"sourceTargetReferenceId\",\"sourceRelativePath\",\"destinationName\"],\"additionalProperties\":false}".to_owned(),
        },
    );
    defs.push(
        ToolDefinition {
            name: "trash_directory_entry".to_owned(),
            description: "Move one previously listed or searched file or directory to the operating system trash or recycle bin. This never permanently deletes the entry and always requires user approval.".to_owned(),
            input_schema: directory_entry_input_schema(),
        },
    );
    defs.push(
        ToolDefinition {
            name: "get_directory_entry_metadata".to_owned(),
            description: "Get size, modification time, entry type, and file extension for an entry returned by list_selected_directory or search_selected_directory.".to_owned(),
            input_schema: directory_entry_input_schema(),
        },
    );
    defs.push(
        ToolDefinition {
            name: "open_directory_entry".to_owned(),
            description: "Open a previously listed or searched directory entry with the system default application. This always requires user approval.".to_owned(),
            input_schema: directory_entry_input_schema(),
        },
    );
    defs.push(
        ToolDefinition {
            name: "reveal_directory_entry".to_owned(),
            description: "Reveal a previously listed or searched directory entry in the system file manager. This always requires user approval.".to_owned(),
            input_schema: directory_entry_input_schema(),
        },
    );
    defs.push(
        ToolDefinition {
            name: "save_text_note".to_owned(),
            description: "Create a new UTF-8 text note in the app's managed agent-files directory. Existing files are never overwritten. This changes the filesystem and always requires user approval.".to_owned(),
            input_schema: "{\"type\":\"object\",\"properties\":{\"fileName\":{\"type\":\"string\",\"description\":\"A plain .txt file name without directories, for example notes.txt.\"},\"content\":{\"type\":\"string\",\"description\":\"Text to save.\"}},\"required\":[\"fileName\",\"content\"],\"additionalProperties\":false}".to_owned(),
        },
    );
    defs.push(
        ToolDefinition {
            name: "read_selected_text_file".to_owned(),
            description: "Read the UTF-8 contents of a text file explicitly attached to this message. Only the supplied opaque referenceId is accepted.".to_owned(),
            input_schema: "{\"type\":\"object\",\"properties\":{\"referenceId\":{\"type\":\"string\",\"description\":\"The opaque referenceId of the attached file.\"}},\"required\":[\"referenceId\"],\"additionalProperties\":false}".to_owned(),
        },
    );
    assert(tool_views(defs@) =~= builtin_tools());
    defs
}

/// How much a tool can change.
#[derive(Debug, Clone, Copy, PartialEq, Eq, Structural)]
pub enum RiskLevel {
    ReadOnly,
    Write,
}

impl RiskLevel {
    pub open spec fn name(self) -> Seq<char> {
        match self {
            RiskLevel::ReadOnly => "read_only"@,
            RiskLevel::Write => "write"@,
        }
    }

    pub fn as_str(self) -> (r: &'static str)
        ensures
            r@ == self.name(),
    {
        match self {
            RiskLevel::ReadOnly => "read_only",
            RiskLevel::Write => "write",
        }
    }
}

impl From<RiskLevel> for ToolRiskLevel {
    fn from(value: RiskLevel) -> (r: Self) {
        match value {
            RiskLevel::ReadOnly => ToolRiskLevel::ReadOnly,
            RiskLevel::Write => ToolRiskLevel::Write,
        }
    }
}

impl vstd::std_specs::convert::FromSpecImpl<RiskLevel> for ToolRiskLevel {
    open spec fn obeys_from_spec() -> bool {
        true
    }

    open spec fn from_spec(value: RiskLevel) -> ToolRiskLevel {
        match value {
            RiskLevel::ReadOnly => ToolRiskLevel::ReadOnly,
            RiskLevel::Write => ToolRiskLevel::Write,
        }
    }
}

/// Whether a call of a tool waits for the user's approval.
#[derive(Debug, Clone, Copy, PartialEq, Eq, Structural)]
pub enum ApprovalPolicy {
    Never,
    Always,
}

impl ApprovalPolicy {
    pub open spec fn name(self) -> Seq<char> {
        match self {
            ApprovalPolicy::Never => "never"@,
            ApprovalPolicy::Always => "always"@,
        }
    }

    pub fn as_str(self) -> (r: &'static str)
        ensures
            r@ == self.name(),
    {
        match self {
            ApprovalPolicy::Never => "never",
            ApprovalPolicy::Always => "always",
        }
    }
}

impl From<ApprovalPolicy> for ToolApprovalPolicy {
    fn from(value: ApprovalPolicy) -> (r: Self) {
        match value {
            ApprovalPolicy::Never => ToolApprovalPolicy::Never,
            ApprovalPolicy::Always => ToolApprovalPolicy::Always,
        }
    }
}

impl vstd::std_specs::convert::FromSpecImpl<ApprovalPolicy> for ToolApprovalPolicy {
    open spec fn obeys_from_spec() -> bool {
        true
    }

    open spec fn from_spec(value: ApprovalPolicy) -> ToolApprovalPolicy {
        match value {
            ApprovalPolicy::Never => ToolApprovalPolicy::Never,
            ApprovalPolicy::Always => ToolApprovalPolicy::Always,
        }
    }
}

/// The risk and approval policy of each built-in tool.
pub open spec fn tool_metadata(name: Seq<char>) -> Option<(RiskLevel, ApprovalPolicy)> {
    if name == "current_time"@ {
        Some((RiskLevel::ReadOnly, ApprovalPolicy::Never))
    } else if name == "save_text_note"@ {
        Some((RiskLevel::Write, ApprovalPolicy::Always))
    } else if name == "read_selected_text_file"@ {
        Some((RiskLevel::ReadOnly, ApprovalPolicy::Never))
    } else if name == "list_selected_directory"@ {
        Some((RiskLevel::ReadOnly, ApprovalPolicy::Never))
    } else if name == "search_selected_directory"@ {
        Some((RiskLevel::ReadOnly, ApprovalPolicy::Never))
    } else if name == "get_directory_entry_metadata"@ {
        Some((RiskLevel::ReadOnly, ApprovalPolicy::Never))
    } else if name == "create_text_file_in_selected_directory"@ {
        Some((RiskLevel::Write, ApprovalPolicy::Always))
    } else if name == "create_directory_in_selected_directory"@ {
        Some((RiskLevel::Write, ApprovalPolicy::Always))
    } else if name == "copy_directory_entry"@ {
        Some((RiskLevel::Write, ApprovalPolicy::Always))
    } else if name == "move_directory_entry"@ {
        Some((RiskLevel::Write, ApprovalPolicy::Always))
    } else if name == "trash_directory_entry"@ {
        Some((RiskLevel::Write, ApprovalPolicy::Always))
    } else if name == "open_directory_entry"@ || name == "reveal_directory_entry"@ {
        Some((RiskLevel::Write, ApprovalPolicy::Always))
    } else {
        None
    }
}

/// The built-in tools have pairwise distinct names.
pub proof fn lemma_tool_names_distinct()
    ensures
        forall|i: int, j: int|
            0 <= i < j < builtin_tool_names().len() ==> builtin_tool_names()[i]
                != builtin_tool_names()[j],
{
    let names = builtin_tool_names();
    reveal_strlit("current_time");
    reveal_strlit("list_selected_directory");
    reveal_strlit("search_selected_directory");
    reveal_strlit("create_text_file_in_selected_directory");
    reveal_strlit("create_directory_in_selected_directory");
    reveal_strlit("copy_directory_entry");
    reveal_strlit("move_directory_entry");
    reveal_strlit("trash_directory_entry");
    reveal_strlit("get_directory_entry_metadata");
    reveal_strlit("open_directory_entry");
    reveal_strlit("reveal_directory_entry");
    reveal_strlit("save_text_note");
    reveal_strlit("read_selected_text_file");
    assert(names[0] == "current_time"@);
    assert(names[1] == "list_selected_directory"@);
    assert(names[2] == "search_selected_directory"@);
    assert(names[3] == "create_text_file_in_selected_directory"@);
    assert(names[4] == "create_directory_in_selected_directory"@);
    assert(names[5] == "copy_directory_entry"@);
    assert(names[6] == "move_directory_entry"@);
    assert(names[7] == "trash_directory_entry"@);
    assert(names[8] == "get_directory_entry_metadata"@);
    assert(names[9] == "open_directory_entry"@);
    assert(names[10] == "reveal_directory_entry"@);
    assert(names[11] == "save_text_note"@);
    assert(names[12] == "read_selected_text_file"@);
    assert forall|i: int, j: int| 0 <= i < j < names.len() implies names[i] != names[j] by {
        if names[i] == names[j] {
            assert(names[i].len() == names[j].len());
            assert(names[i][0] == names[j][0]);
            assert(names[i][7] == names[j][7]);
        }
    }
}

/// A JSON Schema of an object that admits no property it does not name.
pub open spec fn closed_object_schema(schema: Seq<char>) -> bool {
    &&& schema.len() >= 16
    &&& schema.take(16) == "{\"type\":\"object\""@
    &&& schema.skip(schema.len() - 29) == "\"additionalProperties\":false}"@
}

/// Every built-in tool takes a JSON object and refuses properties it does
/// not name.
pub proof fn lemma_tool_schemas_are_closed_objects()
    ensures
        forall|i: int|
            0 <= i < builtin_tools().len() ==> closed_object_schema(
                #[trigger] builtin_tools()[i].input_schema,
            ),
{
    reveal_strlit("{\"type\":\"object\"");
    reveal_strlit("\"additionalProperties\":false}");
    reveal_strlit("{\"type\":\"object\",\"properties\":{\"utcOffset\":{\"type\":\"string\",\"description\":\"UTC offset in ±HH:MM format, for example +08:00. Defaults to +00:00.\"}},\"additionalProperties\":false}");
    reveal_strlit("{\"type\":\"object\",\"properties\":{\"referenceId\":{\"type\":\"string\",\"description\":\"The opaque referenceId of the selected directory.\"}},\"required\":[\"referenceId\"],\"additionalProperties\":false}");
    reveal_strlit("{\"type\":\"object\",\"properties\":{\"referenceId\":{\"type\":\"string\",\"description\":\"The opaque referenceId of the selected directory.\"},\"query\":{\"type\":\"string\",\"minLength\":1,\"maxLength\":128,\"description\":\"Case-insensitive text to match within each file or directory name.\"},\"kind\":{\"type\":\"string\",\"enum\":[\"any\",\"file\",\"directory\"],\"description\":\"Optional result type filter. Defaults to any.\"}},\"required\":[\"referenceId\",\"query\"],\"additionalProperties\":false}");
    reveal_strlit("{\"type\":\"object\",\"properties\":{\"referenceId\":{\"type\":\"string\",\"description\":\"The opaque referenceId of the selected directory.\"},\"fileName\":{\"type\":\"string\",\"description\":\"A plain .txt file name without directories, for example notes.txt.\"},\"content\":{\"type\":\"string\",\"description\":\"UTF-8 text content, limited to 32 KiB.\"}},\"required\":[\"referenceId\",\"fileName\",\"content\"],\"additionalProperties\":false}");
    reveal_strlit("{\"type\":\"object\",\"properties\":{\"referenceId\":{\"type\":\"string\",\"description\":\"The opaque referenceId of the selected directory.\"},\"directoryName\":{\"type\":\"string\",\"description\":\"A plain directory name without path separators.\"}},\"required\":[\"referenceId\",\"directoryName\"],\"additionalProperties\":false}");
    reveal_strlit("{\"type\":\"object\",\"properties\":{\"referenceId\":{\"type\":\"string\",\"description\":\"The opaque referenceId of the selected directory.\"},\"sourceTargetReferenceId\":{\"type\":\"string\",\"description\":\"The opaque targetReferenceId of the source entry.\"},\"sourceRelativePath\":{\"type\":\"string\",\"description\":\"The matching source relativePath returned with the source reference.\"},\"destinationDirectoryTargetReferenceId\":{\"type\":\"string\",\"description\":\"Optional opaque targetReferenceId of a destination directory. Omit to use the selected root.\"},\"destinationDirectoryRelativePath\":{\"type\":\"string\",\"description\":\"Required matching relativePath when a destination directory reference is supplied.\"},\"destinationName\":{\"type\":\"string\",\"description\":\"A plain file or directory name for the copy, without path separators.\"}},\"required\":[\"referenceId\",\"sourceTargetReferenceId\",\"sourceRelativePath\",\"destinationName\"],\"additionalProperties\":false}");
    reveal_strlit("{\"type\":\"object\",\"properties\":{\"referenceId\":{\"type\":\"string\",\"description\":\"The opaque referenceId of the selected directory.\"},\"sourceTargetReferenceId\":{\"type\":\"string\",\"description\":\"The opaque targetReferenceId of the source entry.\"},\"sourceRelativePath\":{\"type\":\"string\",\"description\":\"The matching source relativePath returned with the source reference.\"},\"destinationDirectoryTargetReferenceId\":{\"type\":\"string\",\"description\":\"Optional opaque targetReferenceId of a destination directory. Omit to use the selected root.\"},\"destinationDirectoryRelativePath\":{\"type\":\"string\",\"description\":\"Required matching relativePath when a destination directory reference is supplied.\"},\"destinationName\":{\"type\":\"string\",\"description\":\"A plain name for the moved entry, without path separators.\"}},\"required\":[\"referenceId\",\"sourceTargetReferenceId\",\"sourceRelativePath\",\"destinationName\"],\"additionalProperties\":false}");
    reveal_strlit("{\"type\":\"object\",\"properties\":{\"fileName\":{\"type\":\"string\",\"description\":\"A plain .txt file name without directories, for example notes.txt.\"},\"content\":{\"type\":\"string\",\"description\":\"Text to save.\"}},\"required\":[\"fileName\",\"content\"],\"additionalProperties\":false}");
    reveal_strlit("{\"type\":\"object\",\"properties\":{\"referenceId\":{\"type\":\"string\",\"description\":\"The opaque referenceId of the attached file.\"}},\"required\":[\"referenceId\"],\"additionalProperties\":false}");
    reveal_strlit("{\"type\":\"object\",\"properties\":{\"targetReferenceId\":{\"type\":\"string\",\"description\":\"The opaque targetReferenceId returned for the entry.\"},\"relativePath\":{\"type\":\"string\",\"description\":\"The matching relativePath returned with the target reference, used for a clear approval summary.\"}},\"required\":[\"targetReferenceId\",\"relativePath\"],\"additionalProperties\":false}");
    let tools = builtin_tools();
    assert forall|i: int| 0 <= i < tools.len() implies closed_object_schema(
        #[trigger] tools[i].input_schema,
    ) by {
        let schema = tools[i].input_schema;
        assert(schema.take(16) =~= "{\"type\":\"object\""@);
        assert(schema.skip(schema.len() - 29) =~= "\"additionalProperties\":false}"@);
    }
}

/// The built-in tools that only read: the clock, a selected file, and the
/// listing, search and metadata of a selected directory.
pub open spec fn reading_tools() -> Seq<Seq<char>> {
    seq![
        "current_time"@,
        "read_selected_text_file"@,
        "list_selected_directory"@,
        "search_selected_directory"@,
        "get_directory_entry_metadata"@,
    ]
}

/// The built-in tools that change the file system, save a note, or hand an
/// entry to the system.
pub open spec fn writing_tools() -> Seq<Seq<char>> {
    seq![
        "save_text_note"@,
        "create_text_file_in_selected_directory"@,
        "create_directory_in_selected_directory"@,
        "copy_directory_entry"@,
        "move_directory_entry"@,
        "trash_directory_entry"@,
        "open_directory_entry"@,
        "reveal_directory_entry"@,
    ]
}

/// A tool that only reads is read-only and runs without approval; a tool
/// that changes the file system or saves a note is a write and always needs
/// the user's approval; and for every tool, a write is exactly a tool that
/// needs approval.
pub proof fn lemma_only_writes_need_approval(name: Seq<char>)
    ensures
        forall|i: int|
            0 <= i < reading_tools().len() ==> tool_metadata(#[trigger] reading_tools()[i]) == Some(
                (RiskLevel::ReadOnly, ApprovalPolicy::Never),
            ),
        forall|i: int|
            0 <= i < writing_tools().len() ==> tool_metadata(#[trigger] writing_tools()[i]) == Some(
                (RiskLevel::Write, ApprovalPolicy::Always),
            ),
        tool_metadata(name) matches Some((risk, policy)) ==> (risk == RiskLevel::Write <==> policy
            == ApprovalPolicy::Always),
        tool_metadata(name) is Some ==> (reading_tools().contains(name) || writing_tools().contains(
            name,
        )),
{
    reveal_strlit("current_time");
    reveal_strlit("read_selected_text_file");
    reveal_strlit("list_selected_directory");
    reveal_strlit("search_selected_directory");
    reveal_strlit("get_directory_entry_metadata");
    reveal_strlit("save_text_note");
    reveal_strlit("create_text_file_in_selected_directory");
    reveal_strlit("create_directory_in_selected_directory");
    reveal_strlit("copy_directory_entry");
    reveal_strlit("move_directory_entry");
    reveal_strlit("trash_directory_entry");
    reveal_strlit("open_directory_entry");
    reveal_strlit("reveal_directory_entry");
    let r = reading_tools();
    let w = writing_tools();
    assert(r[0] == "current_time"@);
    assert(r[1] == "read_selected_text_file"@);
    assert(r[2] == "list_selected_directory"@);
    assert(r[3] == "search_selected_directory"@);
    assert(r[4] == "get_directory_entry_metadata"@);
    assert(w[0] == "save_text_note"@);
    assert(w[1] == "create_text_file_in_selected_directory"@);
    assert(w[2] == "create_directory_in_selected_directory"@);
    assert(w[3] == "copy_directory_entry"@);
    assert(w[4] == "move_directory_entry"@);
    assert(w[5] == "trash_directory_entry"@);
    assert(w[6] == "open_directory_entry"@);
    assert(w[7] == "reveal_directory_entry"@);
    assert("current_time"@.len() == 12 && "current_time"@[0] == 'c');
    assert("save_text_note"@.len() == 14 && "save_text_note"@[0] == 's');
    assert("read_selected_text_file"@.len() == 23 && "read_selected_text_file"@[0] == 'r');
    assert("list_selected_directory"@.len() == 23 && "list_selected_directory"@[0] == 'l');
    assert("search_selected_directory"@.len() == 25 && "search_selected_directory"@[0] == 's');
    assert("get_directory_entry_metadata"@.len() == 28 && "get_directory_entry_metadata"@[0] == 'g');
    assert("create_text_file_in_selected_directory"@.len() == 38 && "create_text_file_in_selected_directory"@[0] == 'c');
    assert("create_directory_in_selected_directory"@.len() == 38 && "create_directory_in_selected_directory"@[0] == 'c');
    assert("copy_directory_entry"@.len() == 20 && "copy_directory_entry"@[0] == 'c');
    assert("move_directory_entry"@.len() == 20 && "move_directory_entry"@[0] == 'm');
    assert("trash_directory_entry"@.len() == 21 && "trash_directory_entry"@[0] == 't');
    assert("open_directory_entry"@.len() == 20 && "open_directory_entry"@[0] == 'o');
    assert("reveal_directory_entry"@.len() == 22 && "reveal_directory_entry"@[0] == 'r');
    assert(tool_metadata("current_time"@) == Some((RiskLevel::ReadOnly, ApprovalPolicy::Never)));
    assert(tool_metadata("read_selected_text_file"@) == Some((RiskLevel::ReadOnly, ApprovalPolicy::Never)));
    assert(tool_metadata("list_selected_directory"@) == Some((RiskLevel::ReadOnly, ApprovalPolicy::Never)));
    assert(tool_metadata("search_selected_directory"@) == Some((RiskLevel::ReadOnly, ApprovalPolicy::Never)));
    assert(tool_metadata("get_directory_entry_metadata"@) == Some((RiskLevel::ReadOnly, ApprovalPolicy::Never)));
    assert(tool_metadata("save_text_note"@) == Some((RiskLevel::Write, ApprovalPolicy::Always)));
    assert(tool_metadata("create_text_file_in_selected_directory"@) == Some((RiskLevel::Write, ApprovalPolicy::Always)));
    assert(tool_metadata("create_directory_in_selected_directory"@) == Some((RiskLevel::Write, ApprovalPolicy::Always)));
    assert(tool_metadata("copy_directory_entry"@) == Some((RiskLevel::Write, ApprovalPolicy::Always)));
    assert(tool_metadata("move_directory_entry"@) == Some((RiskLevel::Write, ApprovalPolicy::Always)));
    assert(tool_metadata("trash_directory_entry"@) == Some((RiskLevel::Write, ApprovalPolicy::Always)));
    assert(tool_metadata("open_directory_entry"@) == Some((RiskLevel::Write, ApprovalPolicy::Always)));
    assert(tool_metadata("reveal_directory_entry"@) == Some((RiskLevel::Write, ApprovalPolicy::Always)));
    assert forall|i: int| 0 <= i < r.len() implies tool_metadata(#[trigger] r[i]) == Some(
        (RiskLevel::ReadOnly, ApprovalPolicy::Never),
    ) by {
        if i == 0 { assert(r[0] == "current_time"@); }
        if i == 1 { assert(r[1] == "read_selected_text_file"@); }
        if i == 2 { assert(r[2] == "list_selected_directory"@); }
        if i == 3 { assert(r[3] == "search_selected_directory"@); }
        if i == 4 { assert(r[4] == "get_directory_entry_metadata"@); }
    }
    assert forall|i: int| 0 <= i < w.len() implies tool_metadata(#[trigger] w[i]) == Some(
        (RiskLevel::Write, ApprovalPolicy::Always),
    ) by {
        if i == 0 { assert(w[0] == "save_text_note"@); }
        if i == 1 { assert(w[1] == "create_text_file_in_selected_directory"@); }
        if i == 2 { assert(w[2] == "create_directory_in_selected_directory"@); }
        if i == 3 { assert(w[3] == "copy_directory_entry"@); }
        if i == 4 { assert(w[4] == "move_directory_entry"@); }
        if i == 5 { assert(w[5] == "trash_directory_entry"@); }
        if i == 6 { assert(w[6] == "open_directory_entry"@); }
        if i == 7 { assert(w[7] == "reveal_directory_entry"@); }
    }
    if tool_metadata(name) is Some {
        if name == "current_time"@ || name == "read_selected_text_file"@ || name == "list_selected_directory"@ || name == "search_selected_directory"@ || name == "get_directory_entry_metadata"@ {
            if name == "current_time"@ { assert(r[0] == name); }
            if name == "read_selected_text_file"@ { assert(r[1] == name); }
            if name == "list_selected_directory"@ { assert(r[2] == name); }
            if name == "search_selected_directory"@ { assert(r[3] == name); }
            if name == "get_directory_entry_metadata"@ { assert(r[4] == name); }
        } else {
            if name == "save_text_note"@ { assert(w[0] == name); }
            if name == "create_text_file_in_selected_directory"@ { assert(w[1] == name); }
            if name == "create_directory_in_selected_directory"@ { assert(w[2] == name); }
            if name == "copy_directory_entry"@ { assert(w[3] == name); }
            if name == "move_directory_entry"@ { assert(w[4] == name); }
            if name == "trash_directory_entry"@ { assert(w[5] == name); }
            if name == "open_directory_entry"@ { assert(w[6] == name); }
            if name == "reveal_directory_entry"@ { assert(w[7] == name); }
        }
    }
}

/// The approval policy of the tool `name`, if it is one.
pub open spec fn approval_policy_of(name: Seq<char>) -> Option<ApprovalPolicy> {
    match tool_metadata(name) {
        Some((_, policy)) => Some(policy),
        None => None,
    }
}

/// A tool has a risk level and policy exactly when it is offered.
pub proof fn lemma_metadata_iff_offered(name: Seq<char>)
    ensures
        tool_metadata(name) is Some <==> builtin_tool_names().contains(name),
{
    let names = builtin_tool_names();
    assert(names.len() == 13);
    assert(names[0] == "current_time"@);
    assert(names[1] == "list_selected_directory"@);
    assert(names[2] == "search_selected_directory"@);
    assert(names[3] == "create_text_file_in_selected_directory"@);
    assert(names[4] == "create_directory_in_selected_directory"@);
    assert(names[5] == "copy_directory_entry"@);
    assert(names[6] == "move_directory_entry"@);
    assert(names[7] == "trash_directory_entry"@);
    assert(names[8] == "get_directory_entry_metadata"@);
    assert(names[9] == "open_directory_entry"@);
    assert(names[10] == "reveal_directory_entry"@);
    assert(names[11] == "save_text_note"@);
    assert(names[12] == "read_selected_text_file"@);
    if names.contains(name) {
        let i = choose|i: int| 0 <= i < names.len() && names[i] == name;
        assert(0 <= i < 13);
    }
}

/// How a call of a tool is authorized.
#[derive(Debug, Clone, PartialEq, Eq)]
pub enum ExecutionAuthorization {
    NotRequired,
    Approved { arguments_digest: String },
}

/// Parses a `±HH:MM` UTC offset into seconds east of UTC.
pub open spec fn is_ascii_digit(b: u8) -> bool {
    48 <= b <= 57
}

pub open spec fn offset_shape(b: Seq<u8>) -> bool {
    &&& b.len() == 6
    &&& (b[0] == 43 || b[0] == 45)
    &&& b[3] == 58
    &&& is_ascii_digit(b[1])
    &&& is_ascii_digit(b[2])
    &&& is_ascii_digit(b[4])
    &&& is_ascii_digit(b[5])
}

/// The offset in seconds east of UTC that the text of `b` names, if it is
/// a valid `±HH:MM` offset.
pub open spec fn offset_seconds(b: Seq<u8>) -> Option<int> {
    if !offset_shape(b) {
        None
    } else {
        let hours = (b[1] - 48) * 10 + (b[2] - 48);
        let minutes = (b[4] - 48) * 10 + (b[5] - 48);
        let seconds = (hours * 60 + minutes) * 60 * (if b[0] == 45 {
            -1int
        } else {
            1int
        });
        if hours > 23 || minutes > 59 || !(-86_400 < seconds < 86_400) {
            None
        } else {
            Some(seconds)
        }
    }
}

/// `chrono::FixedOffset::east_opt`: whether an offset of `seconds` east of
/// UTC exists, that is, lies strictly between -86 400 and 86 400.
#[verifier::external_body]
fn fixed_offset_exists(seconds: i32) -> (r: bool)
    ensures
        r <==> (-86_400 < seconds < 86_400),
{
    chrono::FixedOffset::east_opt(seconds).is_some()
}

pub open spec fn invalid_offset_message(value: Seq<char>) -> Seq<char> {
    "utcOffset must use ±HH:MM format, received "@ + value
}

/// The error for a UTC offset that is not `±HH:MM`.
pub fn invalid_offset(value: &str) -> (r: RuntimeError)
    ensures
        r matches RuntimeError::InvalidToolArguments { name, message } && name@ == "current_time"@
            && message@ == invalid_offset_message(value@),
{
    RuntimeError::InvalidToolArguments {
        name: "current_time".to_owned(),
        message: concat_str("utcOffset must use ±HH:MM format, received ", value),
    }
}

/// The UTC offset assumed when none is given.
pub fn default_utc_offset() -> (r: String)
    ensures
        r@ == "+00:00"@,
{
    "+00:00".to_owned()
}

/// The seconds east of UTC of a `±HH:MM` offset, hours at most 23 and
/// minutes at most 59.
pub fn parse_utc_offset(value: &str) -> (r: Result<i32, RuntimeError>)
    ensures
        r is Ok <==> offset_seconds(encode_utf8(value@)) is Some,
        r matches Ok(seconds) ==> offset_seconds(encode_utf8(value@)) == Some(seconds as int),
        r matches Err(e) ==> (e matches RuntimeError::InvalidToolArguments { name, message }
            && name@ == "current_time"@ && message@ == invalid_offset_message(value@)),
{
    let bytes = value.as_bytes();
    let valid_shape = bytes.len() == 6 && (bytes[0] == 43 || bytes[0] == 45) && bytes[3] == 58 && 48
        <= bytes[1] && bytes[1] <= 57 && 48 <= bytes[2] && bytes[2] <= 57 && 48 <= bytes[4]
        && bytes[4] <= 57 && 48 <= bytes[5] && bytes[5] <= 57;
    if !valid_shape {
        return Err(invalid_offset(value));
    }
    let hours: i32 = (bytes[1] - 48) as i32 * 10 + (bytes[2] - 48) as i32;
    let minutes: i32 = (bytes[4] - 48) as i32 * 10 + (bytes[5] - 48) as i32;
    if hours > 23 || minutes > 59 {
        return Err(invalid_offset(value));
    }
    let sign: i32 = if bytes[0] == 45 {
        -1
    } else {
        1
    };
    let seconds: i32 = (hours * 60 + minutes) * 60 * sign;
    if fixed_offset_exists(seconds) {
        Ok(seconds)
    } else {
        Err(invalid_offset(value))
    }
}

/// The type filter of a directory search, as the model names it.
#[derive(Debug, Clone, Copy, PartialEq, Eq, Structural)]
pub enum DirectorySearchKindArgument {
    Any,
    File,
    Directory,
}

impl DirectorySearchKindArgument {
    pub open spec fn name(self) -> Seq<char> {
        match self {
            DirectorySearchKindArgument::Any => "any"@,
            DirectorySearchKindArgument::File => "file"@,
            DirectorySearchKindArgument::Directory => "directory"@,
        }
    }

    pub fn as_str(self) -> (r: &'static str)
        ensures
            r@ == self.name(),
    {
        match self {
            DirectorySearchKindArgument::Any => "any",
            DirectorySearchKindArgument::File => "file",
            DirectorySearchKindArgument::Directory => "directory",
        }
    }
}

impl From<DirectorySearchKindArgument> for DirectorySearchKind {
    fn from(value: DirectorySearchKindArgument) -> (r: Self) {
        match value {
            DirectorySearchKindArgument::Any => DirectorySearchKind::Any,
            DirectorySearchKindArgument::File => DirectorySearchKind::File,
            DirectorySearchKindArgument::Directory => DirectorySearchKind::Directory,
        }
    }
}

impl vstd::std_specs::convert::FromSpecImpl<DirectorySearchKindArgument> for DirectorySearchKind {
    open spec fn obeys_from_spec() -> bool {
        true
    }

    open spec fn from_spec(value: DirectorySearchKindArgument) -> DirectorySearchKind {
        match value {
            DirectorySearchKindArgument::Any => DirectorySearchKind::Any,
            DirectorySearchKindArgument::File => DirectorySearchKind::File,
            DirectorySearchKindArgument::Directory => DirectorySearchKind::Directory,
        }
    }
}

/// The arguments of a tool call, as parsed for the tool it names.
#[derive(Debug, Clone, PartialEq, Eq)]
pub enum ToolArguments {
    CurrentTime { utc_offset: String },
    SaveTextNote { file_name: String, content: String },
    ReadSelectedTextFile { reference_id: String },
    ListSelectedDirectory { reference_id: String },
    SearchSelectedDirectory { reference_id: String, query: String, kind: DirectorySearchKindArgument },
    DirectoryEntry { target_reference_id: String, relative_path: String },
    CreateTextFile { reference_id: String, file_name: String, content: String },
    CreateDirectory { reference_id: String, directory_name: String },
    CopyDirectoryEntry {
        reference_id: String,
        source_target_reference_id: String,
        source_relative_path: String,
        destination_directory_target_reference_id: Option<String>,
        destination_directory_relative_path: Option<String>,
        destination_name: String,
    },
    MoveDirectoryEntry {
        reference_id: String,
        source_target_reference_id: String,
        source_relative_path: String,
        destination_directory_target_reference_id: Option<String>,
        destination_directory_relative_path: Option<String>,
        destination_name: String,
    },
    /// The arguments do not have the shape the tool expects.
    Invalid { message: String },
}

/// Whether the arguments have the shape that the tool `name` expects.
pub open spec fn arguments_fit(name: Seq<char>, arguments: ToolArguments) -> bool {
    match arguments {
        ToolArguments::CurrentTime { .. } => name == "current_time"@,
        ToolArguments::SaveTextNote { .. } => name == "save_text_note"@,
        ToolArguments::ReadSelectedTextFile { .. } => name == "read_selected_text_file"@,
        ToolArguments::ListSelectedDirectory { .. } => name == "list_selected_directory"@,
        ToolArguments::SearchSelectedDirectory { .. } => name == "search_selected_directory"@,
        ToolArguments::DirectoryEntry { .. } => name == "get_directory_entry_metadata"@ || name
            == "open_directory_entry"@ || name == "reveal_directory_entry"@ || name
            == "trash_directory_entry"@,
        ToolArguments::CreateTextFile { .. } => name == "create_text_file_in_selected_directory"@,
        ToolArguments::CreateDirectory { .. } => name == "create_directory_in_selected_directory"@,
        ToolArguments::CopyDirectoryEntry { .. } => name == "copy_directory_entry"@,
        ToolArguments::MoveDirectoryEntry { .. } => name == "move_directory_entry"@,
        ToolArguments::Invalid { .. } => false,
    }
}

pub open spec fn mismatch_message() -> Seq<char> {
    "arguments do not match the tool"@
}

pub open spec fn note_name_message() -> Seq<char> {
    "fileName must be a plain .txt name without directories"@
}

pub open spec fn note_size_message() -> Seq<char> {
    "content must not exceed 32 KiB"@
}

pub open spec fn query_message() -> Seq<char> {
    "query must contain 1 to 128 non-control characters"@
}

/// A note name: at most 128 bytes, not hidden, one normal component with
/// extension `txt`.
pub open spec fn valid_note_name(name: Seq<char>) -> bool {
    &&& encode_utf8(name).len() <= 128
    &&& !(name.len() > 0 && name[0] == '.')
    &&& single_normal(name)
    &&& match path_parts(name)[0] {
        PartView::Normal(file) => name_extension(file) == Some(crate::files::txt()),
        _ => false,
    }
}

/// Why the arguments of a tool call are refused.
pub enum ToolFailure {
    UnknownTool,
    BadArguments(Seq<char>),
    File(FileError),
}

/// Why a note cannot be saved, if it cannot.
pub open spec fn note_failure(file_name: Seq<char>, content: Seq<char>) -> Option<Seq<char>> {
    if !valid_note_name(file_name) {
        Some(note_name_message())
    } else if encode_utf8(content).len() > 32 * 1024 {
        Some(note_size_message())
    } else {
        None
    }
}

/// Checks the name and size of a note.
pub fn validate_note_arguments(file_name: &str, content: &str) -> (r: Result<(), RuntimeError>)
    ensures
        r is Ok <==> note_failure(file_name@, content@) is None,
        r matches Err(e) ==> (e matches RuntimeError::InvalidToolArguments { name, message }
            && name@ == "save_text_note"@ && Some(message@) == note_failure(file_name@, content@)),
{
    let parts = path_components(file_name);
    let txt_ext = if parts.len() == 1 {
        match &parts[0] {
            PathPart::Normal(file) => match file_extension(file.as_str()) {
                Some(ext) => {
                    proof {
                        reveal_strlit("txt");
                        assert("txt"@ =~= crate::files::txt());
                    }
                    str_eq(ext.as_str(), "txt")
                },
                None => false,
            },
            _ => false,
        }
    } else {
        false
    };
    let valid_name = file_name.as_bytes().len() <= 128 && !(file_name.as_bytes().len() > 0
        && chars_of(file_name)[0] == '.') && txt_ext;
    proof {
        if parts@.len() == 1 {
            assert(path_parts(file_name@)[0] == parts@[0]@);
        }
        assert(file_name@.len() > 0 <==> encode_utf8(file_name@).len() > 0) by {
            if file_name@.len() > 0 {
                assert(encode_utf8(file_name@) == vstd::utf8::encode_scalar(file_name@[0] as u32)
                    + encode_utf8(file_name@.drop_first()));
            }
        }
    }
    if !valid_name {
        return Err(
            RuntimeError::InvalidToolArguments {
                name: "save_text_note".to_owned(),
                message: "fileName must be a plain .txt name without directories".to_owned(),
            },
        );
    }
    if content.as_bytes().len() > 32 * 1024 {
        return Err(
            RuntimeError::InvalidToolArguments {
                name: "save_text_note".to_owned(),
                message: "content must not exceed 32 KiB".to_owned(),
            },
        );
    }
    Ok(())
}

/// Whether a search query is refused: empty after trimming, longer than 128
/// characters, or holding a control character.
pub open spec fn bad_query(query: Seq<char>) -> bool {
    trim(query).len() == 0 || trim(query).len() > 128 || has_control(trim(query))
}

/// Checks the query of a directory search for the tool `name`.
pub fn validate_directory_search_arguments(name: &str, query: &str) -> (r: Result<(), RuntimeError>)
    ensures
        r is Ok <==> !bad_query(query@),
        r matches Err(e) ==> (e matches RuntimeError::InvalidToolArguments { name: n, message }
            && n@ == name@ && message@ == query_message()),
{
    let cs = chars_of(query);
    let trimmed = trim_chars(cs.as_slice());
    if trimmed.len() == 0 || trimmed.len() > 128 || chars_have_control(trimmed.as_slice()) {
        return Err(
            RuntimeError::InvalidToolArguments {
                name: name.to_owned(),
                message: "query must contain 1 to 128 non-control characters".to_owned(),
            },
        );
    }
    Ok(())
}

/// The canonical text of a call's arguments and its digest.
pub fn arguments_digest(canonical: &str) -> (r: (String, String))
    ensures
        r.0@ == canonical@,
        r.1@ == content_digest_of(encode_utf8(canonical@)),
{
    (canonical.to_owned(), digest(canonical.as_bytes()))
}

/// The failure of a note tool's file system work.
pub fn tool_io_error(message: String) -> (r: RuntimeError)
    ensures
        r matches RuntimeError::ToolExecution { name, message: m } && name@ == "save_text_note"@
            && m@ == message@,
{
    RuntimeError::ToolExecution { name: "save_text_note".to_owned(), message }
}

/// Whether a file with this id is authorized.
pub open spec fn file_listed(files: Seq<FileView>, id: Seq<char>) -> bool {
    exists|i: int| 0 <= i < files.len() && (#[trigger] files[i]).reference_id == id
}

/// Whether a directory with this id is authorized.
pub open spec fn directory_listed(dirs: Seq<DirectoryView>, id: Seq<char>) -> bool {
    exists|i: int| 0 <= i < dirs.len() && (#[trigger] dirs[i]).reference_id == id
}

/// Whether some authorized directory recorded this entry at this path.
pub open spec fn entry_in_some_directory(
    dirs: Seq<DirectoryView>,
    entries: Seq<crate::files::registry::EntryView>,
    target: Seq<char>,
    relative_path: Seq<char>,
) -> bool {
    exists|i: int|
        0 <= i < dirs.len() && has_entry(entries, target, (#[trigger] dirs[i]).reference_id, relative_path)
}

/// Why a copy or move is refused before it starts, if it is.
pub open spec fn transfer_failure(
    dirs: Seq<DirectoryView>,
    entries: Seq<crate::files::registry::EntryView>,
    name_error: FileError,
    reference_id: Seq<char>,
    source_target: Seq<char>,
    source_relative: Seq<char>,
    destination_target: Option<Seq<char>>,
    destination_relative: Option<Seq<char>>,
    destination_name: Seq<char>,
) -> Option<ToolFailure> {
    if !valid_entry_name(destination_name) {
        Some(ToolFailure::File(name_error))
    } else if !directory_listed(dirs, reference_id) {
        Some(ToolFailure::File(FileError::ReferenceInvalid))
    } else if !has_entry(entries, source_target, reference_id, source_relative) {
        Some(ToolFailure::File(FileError::EntryReferenceInvalid))
    } else {
        match (destination_target, destination_relative) {
            (None, None) => None,
            (Some(t), Some(rel)) => if has_entry(entries, t, reference_id, rel) {
                None
            } else {
                Some(ToolFailure::File(FileError::EntryReferenceInvalid))
            },
            _ => Some(ToolFailure::File(FileError::EntryReferenceInvalid)),
        }
    }
}

pub open spec fn opt_view(o: Option<String>) -> Option<Seq<char>> {
    match o {
        Some(s) => Some(s@),
        None => None,
    }
}

/// Why the arguments of a call of `name` are refused, if they are.
pub open spec fn validation_failure(
    files: Seq<FileView>,
    dirs: Seq<DirectoryView>,
    entries: Seq<crate::files::registry::EntryView>,
    name: Seq<char>,
    arguments: ToolArguments,
) -> Option<ToolFailure> {
    if tool_metadata(name) is None {
        Some(ToolFailure::UnknownTool)
    } else {
        match arguments {
            ToolArguments::Invalid { message } => Some(ToolFailure::BadArguments(message@)),
            _ => if !arguments_fit(name, arguments) {
                Some(ToolFailure::BadArguments(mismatch_message()))
            } else {
                match arguments {
                    ToolArguments::CurrentTime { utc_offset } => if offset_seconds(
                        encode_utf8(utc_offset@),
                    ) is None {
                        Some(ToolFailure::BadArguments(invalid_offset_message(utc_offset@)))
                    } else {
                        None
                    },
                    ToolArguments::SaveTextNote { file_name, content } => match note_failure(
                        file_name@,
                        content@,
                    ) {
                        Some(m) => Some(ToolFailure::BadArguments(m)),
                        None => None,
                    },
                    ToolArguments::ReadSelectedTextFile { reference_id } => if file_listed(
                        files,
                        reference_id@,
                    ) {
                        None
                    } else {
                        Some(ToolFailure::File(FileError::ReferenceInvalid))
                    },
                    ToolArguments::ListSelectedDirectory { reference_id } => if directory_listed(
                        dirs,
                        reference_id@,
                    ) {
                        None
                    } else {
                        Some(ToolFailure::File(FileError::ReferenceInvalid))
                    },
                    ToolArguments::SearchSelectedDirectory { reference_id, query, .. } => if bad_query(
                        query@,
                    ) {
                        Some(ToolFailure::BadArguments(query_message()))
                    } else if directory_listed(dirs, reference_id@) {
                        None
                    } else {
                        Some(ToolFailure::File(FileError::ReferenceInvalid))
                    },
                    ToolArguments::DirectoryEntry { target_reference_id, relative_path } => if entry_in_some_directory(
                        dirs,
                        entries,
                        target_reference_id@,
                        relative_path@,
                    ) {
                        None
                    } else {
                        Some(ToolFailure::File(FileError::EntryReferenceInvalid))
                    },
                    ToolArguments::CreateTextFile { reference_id, file_name, content } => match created_text_file_error(
                        file_name@,
                        content@,
                    ) {
                        Some(e) => Some(ToolFailure::File(e)),
                        None => if directory_listed(dirs, reference_id@) {
                            None
                        } else {
                            Some(ToolFailure::File(FileError::ReferenceInvalid))
                        },
                    },
                    ToolArguments::CreateDirectory { reference_id, directory_name } => if !valid_entry_name(
                        directory_name@,
                    ) {
                        Some(ToolFailure::File(FileError::DirectoryNameInvalid))
                    } else if directory_listed(dirs, reference_id@) {
                        None
                    } else {
                        Some(ToolFailure::File(FileError::ReferenceInvalid))
                    },
                    ToolArguments::CopyDirectoryEntry {
                        reference_id,
                        source_target_reference_id,
                        source_relative_path,
                        destination_directory_target_reference_id,
                        destination_directory_relative_path,
                        destination_name,
                    } => transfer_failure(
                        dirs,
                        entries,
                        FileError::CopyDestinationInvalid,
                        reference_id@,
                        source_target_reference_id@,
                        source_relative_path@,
                        opt_view(destination_directory_target_reference_id),
                        opt_view(destination_directory_relative_path),
                        destination_name@,
                    ),
                    ToolArguments::MoveDirectoryEntry {
                        reference_id,
                        source_target_reference_id,
                        source_relative_path,
                        destination_directory_target_reference_id,
                        destination_directory_relative_path,
                        destination_name,
                    } => transfer_failure(
                        dirs,
                        entries,
                        FileError::MoveDestinationInvalid,
                        reference_id@,
                        source_target_reference_id@,
                        source_relative_path@,
                        opt_view(destination_directory_target_reference_id),
                        opt_view(destination_directory_relative_path),
                        destination_name@,
                    ),
                    ToolArguments::Invalid { .. } => None,
                }
            },
        }
    }
}

/// Whether `r` reports `failure` for a call of the tool `name`.
pub open spec fn reports_failure(r: Result<(), RuntimeError>, name: Seq<char>, failure: Option<ToolFailure>) -> bool {
    match failure {
        None => r is Ok,
        Some(ToolFailure::UnknownTool) => r matches Err(RuntimeError::ToolNotFound(n)) && n@ == name,
        Some(ToolFailure::BadArguments(m)) => r matches Err(
            RuntimeError::InvalidToolArguments { name: n, message },
        ) && n@ == name && message@ == m,
        Some(ToolFailure::File(e)) => r == Err::<(), RuntimeError>(RuntimeError::File(e)),
    }
}

/// The tools of one agent run, with the files and directories the user
/// authorized for it.
pub struct ToolRegistry {
    data_dir: String,
    authorized_files: Vec<AuthorizedFile>,
    authorized_directories: Vec<AuthorizedDirectory>,
}

impl ToolRegistry {
    pub closed spec fn files(&self) -> Seq<FileView> {
        self.authorized_files@.map_values(|f: AuthorizedFile| f@)
    }

    pub closed spec fn directories(&self) -> Seq<DirectoryView> {
        self.authorized_directories@.map_values(|d: AuthorizedDirectory| d@)
    }

    pub closed spec fn data_dir_view(&self) -> Seq<char> {
        self.data_dir@
    }

    /// The tools with nothing authorized, notes kept under `data_dir`.
    pub fn built_in(data_dir: String) -> (r: Self)
        ensures
            r.files().len() == 0,
            r.directories().len() == 0,
            r.data_dir_view() == data_dir@,
    {
        let r = ToolRegistry {
            data_dir,
            authorized_files: Vec::new(),
            authorized_directories: Vec::new(),
        };
        assert(r.files() =~= Seq::<FileView>::empty());
        assert(r.directories() =~= Seq::<DirectoryView>::empty());
        r
    }

    /// The tools with these files and directories authorized. Of several
    /// with one id, the last counts.
    pub fn with_authorizations(
        data_dir: String,
        authorized_files: Vec<AuthorizedFile>,
        authorized_directories: Vec<AuthorizedDirectory>,
    ) -> (r: Self)
        ensures
            r.files() == authorized_files@.map_values(|f: AuthorizedFile| f@),
            r.directories() == authorized_directories@.map_values(|d: AuthorizedDirectory| d@),
            r.data_dir_view() == data_dir@,
    {
        ToolRegistry { data_dir, authorized_files, authorized_directories }
    }

    pub fn data_dir(&self) -> (r: &str)
        ensures
            r@ == self.data_dir_view(),
    {
        self.data_dir.as_str()
    }

    /// The tools offered to the model.
    pub fn definitions(&self) -> (r: Vec<ToolDefinition>)
        ensures
            tool_views(r@) == builtin_tools(),
    {
        builtin_definitions()
    }

    /// The names of the tools offered.
    pub fn names(&self) -> (r: Vec<String>)
        ensures
            r@.map_values(|s: String| s@) == builtin_tool_names(),
            forall|i: int, j: int| 0 <= i < j < r@.len() ==> r@[i]@ != r@[j]@,
    {
        let defs = builtin_definitions();
        let ghost tools = builtin_tools();
        let mut names: Vec<String> = Vec::new();
        let mut i: usize = 0;
        while i < defs.len()
            invariant
                tool_views(defs@) == tools,
                tools == builtin_tools(),
                i <= defs@.len(),
                names@.map_values(|s: String| s@) == tools.take(i as int).map_values(
                    |t: ToolSpec| t.name,
                ),
            decreases defs@.len() - i,
        {
            let name = defs[i].name.clone();
            let ghost before = names@;
            let ghost nv = name@;
            names.push(name);
            assert(tools[i as int] == tool_view(defs@[i as int]));
            assert(nv == tools[i as int].name);
            assert(names@.map_values(|s: String| s@) =~= before.map_values(|s: String| s@).push(nv));
            assert(tools.take(i + 1).map_values(|t: ToolSpec| t.name) =~= tools.take(
                i as int,
            ).map_values(|t: ToolSpec| t.name).push(nv));
            i = i + 1;
        }
        assert(tools.take(defs@.len() as int) =~= tools);
        proof {
            lemma_tool_names_distinct();
            let nv = names@.map_values(|s: String| s@);
            assert forall|a: int, b: int| 0 <= a < b < names@.len() implies names@[a]@ != names@[b]@ by {
                assert(nv =~= builtin_tool_names());
                assert(nv[a] == names@[a]@ && nv[b] == names@[b]@);
                assert(builtin_tool_names()[a] != builtin_tool_names()[b]);
            }
        }
        names
    }

    /// The offered tools whose names are in `allowed`, in offered order.
    pub fn definitions_for(&self, allowed: &Vec<String>) -> (r: Vec<ToolDefinition>)
        ensures
            tool_views(r@) == allowed_tools(builtin_tools(), allowed@),
    {
        let defs = builtin_definitions();
        let ghost tools = builtin_tools();
        let mut kept: Vec<ToolDefinition> = Vec::new();
        let n = defs.len();
        let mut rest = defs;
        let mut i: usize = 0;
        assert(tools.take(0) =~= Seq::<ToolSpec>::empty());
        assert(tool_views(kept@) =~= Seq::<ToolSpec>::empty());
        while i < n
            invariant
                tools == builtin_tools(),
                n == tools.len(),
                i <= n,
                rest@.len() == n - i,
                forall|j: int| 0 <= j < n - i ==> tool_view(#[trigger] rest@[j]) == tools[i + j],
                tool_views(kept@) == allowed_tools(tools.take(i as int), allowed@),
            decreases n - i,
        {
            let ghost before_rest = rest@;
            let d = rest.remove(0);
            assert(tool_view(d) == tools[i + 0]);
            assert forall|j: int| 0 <= j < n - (i + 1) implies tool_view(#[trigger] rest@[j])
                == tools[(i + 1) + j] by {
                assert(rest@[j] == before_rest[j + 1]);
            }
            assert(tools.take(i + 1).drop_last() =~= tools.take(i as int));
            assert(tools.take(i + 1).last() == tools[i as int]);
            let allowed_here = crate::agent::skills::vec_contains_text(allowed, d.name.as_str());
            if allowed_here {
                let ghost before = tool_views(kept@);
                kept.push(d);
                assert(tool_views(kept@) =~= before.push(tools[i as int]));
            }
            i = i + 1;
        }
        assert(tools.take(n as int) =~= tools);
        kept
    }

    /// The risk level and approval policy of the tool `name`.
    pub fn metadata(&self, name: &str) -> (r: Result<(RiskLevel, ApprovalPolicy), RuntimeError>)
        ensures
            match tool_metadata(name@) {
                Some(m) => r == Ok::<(RiskLevel, ApprovalPolicy), RuntimeError>(m),
                None => r matches Err(RuntimeError::ToolNotFound(n)) && n@ == name@,
            },
    {
        if str_eq(name, "current_time") {
            Ok((RiskLevel::ReadOnly, ApprovalPolicy::Never))
        } else if str_eq(name, "save_text_note") {
            Ok((RiskLevel::Write, ApprovalPolicy::Always))
        } else if str_eq(name, "read_selected_text_file") {
            Ok((RiskLevel::ReadOnly, ApprovalPolicy::Never))
        } else if str_eq(name, "list_selected_directory") {
            Ok((RiskLevel::ReadOnly, ApprovalPolicy::Never))
        } else if str_eq(name, "search_selected_directory") {
            Ok((RiskLevel::ReadOnly, ApprovalPolicy::Never))
        } else if str_eq(name, "get_directory_entry_metadata") {
            Ok((RiskLevel::ReadOnly, ApprovalPolicy::Never))
        } else if str_eq(name, "create_text_file_in_selected_directory") {
            Ok((RiskLevel::Write, ApprovalPolicy::Always))
        } else if str_eq(name, "create_directory_in_selected_directory") {
            Ok((RiskLevel::Write, ApprovalPolicy::Always))
        } else if str_eq(name, "copy_directory_entry") {
            Ok((RiskLevel::Write, ApprovalPolicy::Always))
        } else if str_eq(name, "move_directory_entry") {
            Ok((RiskLevel::Write, ApprovalPolicy::Always))
        } else if str_eq(name, "trash_directory_entry") {
            Ok((RiskLevel::Write, ApprovalPolicy::Always))
        } else if str_eq(name, "open_directory_entry") || str_eq(name, "reveal_directory_entry") {
            Ok((RiskLevel::Write, ApprovalPolicy::Always))
        } else {
            Err(RuntimeError::ToolNotFound(name.to_owned()))
        }
    }
}

/// The offered tools whose names are in `allowed`.
pub open spec fn allowed_tools(tools: Seq<ToolSpec>, allowed: Seq<String>) -> Seq<ToolSpec>
    decreases tools.len(),
{
    if tools.len() == 0 {
        tools
    } else {
        let rest = allowed_tools(tools.drop_last(), allowed);
        if crate::agent::skills::contains_text(allowed, tools.last().name) {
            rest.push(tools.last())
        } else {
            rest
        }
    }
}

/// Whether a call of `name` with arguments whose canonical text is
/// `canonical` may run under `authorization`: a tool that needs no approval
/// runs without one; a tool that needs approval runs only with an approval
/// of exactly these arguments.
pub open spec fn execution_permitted(
    name: Seq<char>,
    authorization: ExecutionAuthorization,
    canonical: Seq<char>,
) -> bool {
    match tool_metadata(name) {
        None => false,
        Some((_, ApprovalPolicy::Never)) => authorization is NotRequired,
        Some((_, ApprovalPolicy::Always)) => authorization matches ExecutionAuthorization::Approved {
            arguments_digest,
        } && arguments_digest@ == content_digest_of(encode_utf8(canonical)),
    }
}

/// An approval recorded with the digest of some arguments authorizes a
/// call of a tool that needs approval with exactly those arguments, and a
/// tool that needs no approval never runs under an approval.
pub proof fn lemma_approval_binds_arguments(
    name: Seq<char>,
    authorization: ExecutionAuthorization,
    canonical: Seq<char>,
)
    ensures
        approval_policy_of(name) == Some(ApprovalPolicy::Always) ==> (execution_permitted(
            name,
            authorization,
            canonical,
        ) <==> (authorization matches ExecutionAuthorization::Approved { arguments_digest }
            && arguments_digest@ == content_digest_of(encode_utf8(canonical)))),
        approval_policy_of(name) == Some(ApprovalPolicy::Never) ==> (execution_permitted(
            name,
            authorization,
            canonical,
        ) <==> authorization is NotRequired),
{
}

impl ToolRegistry {
    /// The index of the last authorized file with this id.
    fn file_index(&self, reference_id: &str) -> (r: Option<usize>)
        ensures
            r matches Some(i) ==> i < self.files().len() && self.files()[i as int].reference_id
                == reference_id@ && forall|j: int|
                i < j < self.files().len() ==> (#[trigger] self.files()[j]).reference_id
                    != reference_id@,
            r is None ==> !file_listed(self.files(), reference_id@),
    {
        let mut i: usize = self.authorized_files.len();
        while i > 0
            invariant
                i <= self.files().len(),
                self.files().len() == self.authorized_files@.len(),
                forall|j: int|
                    i <= j < self.files().len() ==> (#[trigger] self.files()[j]).reference_id
                        != reference_id@,
            decreases i,
        {
            let f = &self.authorized_files[i - 1];
            assert(self.files()[i - 1] == f@);
            if str_eq(f.reference().reference_id.as_str(), reference_id) {
                return Some(i - 1);
            }
            i = i - 1;
        }
        None
    }

    /// The index of the last authorized directory with this id.
    fn directory_index(&self, reference_id: &str) -> (r: Option<usize>)
        ensures
            r matches Some(i) ==> i < self.directories().len() && self.directories()[i as int].reference_id
                == reference_id@ && forall|j: int|
                i < j < self.directories().len() ==> (#[trigger] self.directories()[j]).reference_id
                    != reference_id@,
            r is None ==> !directory_listed(self.directories(), reference_id@),
    {
        let mut i: usize = self.authorized_directories.len();
        while i > 0
            invariant
                i <= self.directories().len(),
                self.directories().len() == self.authorized_directories@.len(),
                forall|j: int|
                    i <= j < self.directories().len() ==> (#[trigger] self.directories()[j]).reference_id
                        != reference_id@,
            decreases i,
        {
            let d = &self.authorized_directories[i - 1];
            assert(self.directories()[i - 1] == d@);
            if str_eq(d.reference().reference_id.as_str(), reference_id) {
                return Some(i - 1);
            }
            i = i - 1;
        }
        None
    }

    /// The authorized file with this id.
    pub fn authorized_file(&self, reference_id: &str) -> (r: Result<&AuthorizedFile, RuntimeError>)
        ensures
            r is Ok <==> file_listed(self.files(), reference_id@),
            r matches Ok(f) ==> exists|i: int|
                0 <= i < self.files().len() && self.files()[i] == f@ && f@.reference_id
                    == reference_id@ && forall|j: int|
                    i < j < self.files().len() ==> (#[trigger] self.files()[j]).reference_id
                        != reference_id@,
            r is Err ==> r == Err::<&AuthorizedFile, RuntimeError>(
                RuntimeError::File(FileError::ReferenceInvalid),
            ),
    {
        match self.file_index(reference_id) {
            Some(i) => {
                assert(self.files()[i as int] == self.authorized_files@[i as int]@);
                Ok(&self.authorized_files[i])
            },
            None => Err(RuntimeError::File(FileError::ReferenceInvalid)),
        }
    }

    /// The authorized directory with this id.
    pub fn authorized_directory(&self, reference_id: &str) -> (r: Result<
        &AuthorizedDirectory,
        RuntimeError,
    >)
        ensures
            r is Ok <==> directory_listed(self.directories(), reference_id@),
            r matches Ok(d) ==> exists|i: int|
                0 <= i < self.directories().len() && self.directories()[i] == d@ && d@.reference_id
                    == reference_id@ && forall|j: int|
                    i < j < self.directories().len() ==> (#[trigger] self.directories()[j]).reference_id
                        != reference_id@,
            r is Err ==> r == Err::<&AuthorizedDirectory, RuntimeError>(
                RuntimeError::File(FileError::ReferenceInvalid),
            ),
    {
        match self.directory_index(reference_id) {
            Some(i) => {
                assert(self.directories()[i as int] == self.authorized_directories@[i as int]@);
                Ok(&self.authorized_directories[i])
            },
            None => Err(RuntimeError::File(FileError::ReferenceInvalid)),
        }
    }

    /// The authorized directory that recorded the entry `target` at
    /// `relative_path`.
    pub fn directory_for_entry(
        &self,
        entries: &EntryRegistry,
        target_reference_id: &str,
        relative_path: &str,
    ) -> (r: Result<&AuthorizedDirectory, RuntimeError>)
        requires
            entries.wf(),
        ensures
            r is Ok <==> entry_in_some_directory(
                self.directories(),
                entries.records(),
                target_reference_id@,
                relative_path@,
            ),
            r matches Ok(d) ==> self.directories().contains(d@) && has_entry(
                entries.records(),
                target_reference_id@,
                d@.reference_id,
                relative_path@,
            ),
            r is Err ==> r == Err::<&AuthorizedDirectory, RuntimeError>(
                RuntimeError::File(FileError::EntryReferenceInvalid),
            ),
    {
        let mut i: usize = self.authorized_directories.len();
        while i > 0
            invariant
                entries.wf(),
                i <= self.directories().len(),
                self.directories().len() == self.authorized_directories@.len(),
                forall|j: int|
                    i <= j < self.directories().len() ==> !has_entry(
                        entries.records(),
                        target_reference_id@,
                        (#[trigger] self.directories()[j]).reference_id,
                        relative_path@,
                    ),
            decreases i,
        {
            let d = &self.authorized_directories[i - 1];
            assert(self.directories()[i - 1] == d@);
            if d.validates_entry_reference(entries, target_reference_id, relative_path) {
                return Ok(d);
            }
            i = i - 1;
        }
        Err(RuntimeError::File(FileError::EntryReferenceInvalid))
    }

    /// Whether the arguments have the shape the tool expects.
    fn fits(name: &str, arguments: &ToolArguments) -> (r: bool)
        ensures
            r == arguments_fit(name@, *arguments),
    {
        match arguments {
            ToolArguments::CurrentTime { .. } => str_eq(name, "current_time"),
            ToolArguments::SaveTextNote { .. } => str_eq(name, "save_text_note"),
            ToolArguments::ReadSelectedTextFile { .. } => str_eq(name, "read_selected_text_file"),
            ToolArguments::ListSelectedDirectory { .. } => str_eq(name, "list_selected_directory"),
            ToolArguments::SearchSelectedDirectory { .. } => str_eq(name, "search_selected_directory"),
            ToolArguments::DirectoryEntry { .. } => str_eq(name, "get_directory_entry_metadata")
                || str_eq(name, "open_directory_entry") || str_eq(name, "reveal_directory_entry")
                || str_eq(name, "trash_directory_entry"),
            ToolArguments::CreateTextFile { .. } => str_eq(
                name,
                "create_text_file_in_selected_directory",
            ),
            ToolArguments::CreateDirectory { .. } => str_eq(
                name,
                "create_directory_in_selected_directory",
            ),
            ToolArguments::CopyDirectoryEntry { .. } => str_eq(name, "copy_directory_entry"),
            ToolArguments::MoveDirectoryEntry { .. } => str_eq(name, "move_directory_entry"),
            ToolArguments::Invalid { .. } => false,
        }
    }

    /// Checks a copy or move before it starts.
    fn check_transfer(
        &self,
        entries: &EntryRegistry,
        name_check: Result<(), FileError>,
        reference_id: &str,
        source_target_reference_id: &str,
        source_relative_path: &str,
        destination_directory_target_reference_id: &Option<String>,
        destination_directory_relative_path: &Option<String>,
    ) -> (r: Result<(), RuntimeError>)
        requires
            entries.wf(),
        ensures
            match name_check {
                Err(e) => r == Err::<(), RuntimeError>(RuntimeError::File(e)),
                Ok(()) => {
                    let failure = if !directory_listed(self.directories(), reference_id@) {
                        Some(FileError::ReferenceInvalid)
                    } else if !has_entry(
                        entries.records(),
                        source_target_reference_id@,
                        reference_id@,
                        source_relative_path@,
                    ) {
                        Some(FileError::EntryReferenceInvalid)
                    } else {
                        match (
                            opt_view(*destination_directory_target_reference_id),
                            opt_view(*destination_directory_relative_path),
                        ) {
                            (None, None) => None,
                            (Some(t), Some(rel)) => if has_entry(
                                entries.records(),
                                t,
                                reference_id@,
                                rel,
                            ) {
                                None
                            } else {
                                Some(FileError::EntryReferenceInvalid)
                            },
                            _ => Some(FileError::EntryReferenceInvalid),
                        }
                    };
                    match failure {
                        None => r is Ok,
                        Some(e) => r == Err::<(), RuntimeError>(RuntimeError::File(e)),
                    }
                },
            },
    {
        match name_check {
            Err(e) => return Err(RuntimeError::File(e)),
            Ok(()) => {},
        }
        let directory = match self.authorized_directory(reference_id) {
            Ok(d) => d,
            Err(e) => return Err(e),
        };
        if !directory.validates_entry_reference(
            entries,
            source_target_reference_id,
            source_relative_path,
        ) {
            return Err(RuntimeError::File(FileError::EntryReferenceInvalid));
        }
        match (destination_directory_target_reference_id, destination_directory_relative_path) {
            (None, None) => Ok(()),
            (Some(target), Some(relative)) => {
                if directory.validates_entry_reference(entries, target.as_str(), relative.as_str()) {
                    Ok(())
                } else {
                    Err(RuntimeError::File(FileError::EntryReferenceInvalid))
                }
            },
            _ => Err(RuntimeError::File(FileError::EntryReferenceInvalid)),
        }
    }

    /// Checks the arguments of a call of the tool `name` before it runs:
    /// their shape, their limits, and that every reference they hold was
    /// authorized or recorded for this run.
    pub fn validate(&self, entries: &EntryRegistry, name: &str, arguments: &ToolArguments) -> (r:
        Result<(), RuntimeError>)
        requires
            entries.wf(),
        ensures
            reports_failure(
                r,
                name@,
                validation_failure(
                    self.files(),
                    self.directories(),
                    entries.records(),
                    name@,
                    *arguments,
                ),
            ),
    {
        match self.metadata(name) {
            Err(e) => return Err(e),
            Ok(_) => {},
        }
        if let ToolArguments::Invalid { message } = arguments {
            return Err(
                RuntimeError::InvalidToolArguments { name: name.to_owned(), message: message.clone() },
            );
        }
        if !Self::fits(name, arguments) {
            return Err(
                RuntimeError::InvalidToolArguments {
                    name: name.to_owned(),
                    message: "arguments do not match the tool".to_owned(),
                },
            );
        }
        match arguments {
            ToolArguments::CurrentTime { utc_offset } => match parse_utc_offset(utc_offset.as_str()) {
                Ok(_) => Ok(()),
                Err(e) => Err(e),
            },
            ToolArguments::SaveTextNote { file_name, content } => validate_note_arguments(
                file_name.as_str(),
                content.as_str(),
            ),
            ToolArguments::ReadSelectedTextFile { reference_id } => match self.authorized_file(
                reference_id.as_str(),
            ) {
                Ok(_) => Ok(()),
                Err(e) => Err(e),
            },
            ToolArguments::ListSelectedDirectory { reference_id } => match self.authorized_directory(
                reference_id.as_str(),
            ) {
                Ok(_) => Ok(()),
                Err(e) => Err(e),
            },
            ToolArguments::SearchSelectedDirectory { reference_id, query, .. } => {
                match validate_directory_search_arguments(name, query.as_str()) {
                    Err(e) => return Err(e),
                    Ok(()) => {},
                }
                match self.authorized_directory(reference_id.as_str()) {
                    Ok(_) => Ok(()),
                    Err(e) => Err(e),
                }
            },
            ToolArguments::DirectoryEntry { target_reference_id, relative_path } => match self.directory_for_entry(
                entries,
                target_reference_id.as_str(),
                relative_path.as_str(),
            ) {
                Ok(_) => Ok(()),
                Err(e) => Err(e),
            },
            ToolArguments::CreateTextFile { reference_id, file_name, content } => {
                match validate_created_text_file(file_name.as_str(), content.as_str()) {
                    Err(e) => return Err(RuntimeError::File(e)),
                    Ok(()) => {},
                }
                match self.authorized_directory(reference_id.as_str()) {
                    Ok(_) => Ok(()),
                    Err(e) => Err(e),
                }
            },
            ToolArguments::CreateDirectory { reference_id, directory_name } => {
                match validate_created_directory(directory_name.as_str()) {
                    Err(e) => return Err(RuntimeError::File(e)),
                    Ok(()) => {},
                }
                match self.authorized_directory(reference_id.as_str()) {
                    Ok(_) => Ok(()),
                    Err(e) => Err(e),
                }
            },
            ToolArguments::CopyDirectoryEntry {
                reference_id,
                source_target_reference_id,
                source_relative_path,
                destination_directory_target_reference_id,
                destination_directory_relative_path,
                destination_name,
            } => self.check_transfer(
                entries,
                validate_copy_destination_name(destination_name.as_str()),
                reference_id.as_str(),
                source_target_reference_id.as_str(),
                source_relative_path.as_str(),
                destination_directory_target_reference_id,
                destination_directory_relative_path,
            ),
            ToolArguments::MoveDirectoryEntry {
                reference_id,
                source_target_reference_id,
                source_relative_path,
                destination_directory_target_reference_id,
                destination_directory_relative_path,
                destination_name,
            } => self.check_transfer(
                entries,
                validate_move_destination_name(destination_name.as_str()),
                reference_id.as_str(),
                source_target_reference_id.as_str(),
                source_relative_path.as_str(),
                destination_directory_target_reference_id,
                destination_directory_relative_path,
            ),
            ToolArguments::Invalid { .. } => Ok(()),
        }
    }

    /// Whether a call of `name` may run under `authorization`, given the
    /// canonical text of its arguments.
    pub fn authorize_execution(
        &self,
        name: &str,
        authorization: &ExecutionAuthorization,
        canonical_arguments: &str,
    ) -> (r: Result<(), RuntimeError>)
        ensures
            r is Ok <==> execution_permitted(name@, *authorization, canonical_arguments@),
            (r is Err && tool_metadata(name@) is None) ==> (r matches Err(
                RuntimeError::ToolNotFound(n),
            ) && n@ == name@),
            (r is Err && tool_metadata(name@) is Some) ==> (r matches Err(
                RuntimeError::InvalidToolApproval(n),
            ) && n@ == name@),
    {
        let policy = match self.metadata(name) {
            Ok((_, policy)) => policy,
            Err(e) => return Err(e),
        };
        match (policy, authorization) {
            (ApprovalPolicy::Never, ExecutionAuthorization::NotRequired) => Ok(()),
            (ApprovalPolicy::Always, ExecutionAuthorization::Approved { arguments_digest: approved }) => {
                let (_, current) = arguments_digest(canonical_arguments);
                if str_eq(current.as_str(), approved.as_str()) {
                    Ok(())
                } else {
                    Err(RuntimeError::InvalidToolApproval(name.to_owned()))
                }
            },
            _ => Err(RuntimeError::InvalidToolApproval(name.to_owned())),
        }
    }

    /// The checks a call passes before it runs: its authorization, then its
    /// arguments.
    pub fn check_call(
        &self,
        entries: &EntryRegistry,
        name: &str,
        arguments: &ToolArguments,
        authorization: &ExecutionAuthorization,
        canonical_arguments: &str,
    ) -> (r: Result<(), RuntimeError>)
        requires
            entries.wf(),
        ensures
            r is Ok <==> execution_permitted(name@, *authorization, canonical_arguments@)
                && validation_failure(
                self.files(),
                self.directories(),
                entries.records(),
                name@,
                *arguments,
            ) is None,
            !execution_permitted(name@, *authorization, canonical_arguments@) ==> r is Err,
            (!execution_permitted(name@, *authorization, canonical_arguments@) && tool_metadata(
                name@,
            ) is None) ==> (r matches Err(RuntimeError::ToolNotFound(n)) && n@ == name@),
            (!execution_permitted(name@, *authorization, canonical_arguments@) && tool_metadata(
                name@,
            ) is Some) ==> (r matches Err(RuntimeError::InvalidToolApproval(n)) && n@ == name@),
            execution_permitted(name@, *authorization, canonical_arguments@) ==> reports_failure(
                r,
                name@,
                validation_failure(
                    self.files(),
                    self.directories(),
                    entries.records(),
                    name@,
                    *arguments,
                ),
            ),
    {
        match self.authorize_execution(name, authorization, canonical_arguments) {
            Err(e) => return Err(e),
            Ok(()) => {},
        }
        self.validate(entries, name, arguments)
    }
}

impl ToolRegistry {
    /// The fields of a tool's result that are kept in its summary, or
    /// `None` when the whole result is kept: a read file's summary keeps its
    /// name, size and read flag, never its content.
    pub fn result_summary_fields(&self, name: &str) -> (r: Option<Vec<&'static str>>)
        ensures
            name@ == "read_selected_text_file"@ ==> (r matches Some(fields) && fields@.len() == 3
                && fields@[0]@ == "fileName"@ && fields@[1]@ == "size"@ && fields@[2]@ == "read"@),
            name@ != "read_selected_text_file"@ ==> r is None,
    {
        if str_eq(name, "read_selected_text_file") {
            let mut fields: Vec<&'static str> = Vec::new();
            fields.push("fileName");
            fields.push("size");
            fields.push("read");
            Some(fields)
        } else {
            None
        }
    }
}

} // verus!
