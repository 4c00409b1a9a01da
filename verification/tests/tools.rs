use yukin::agent::tools::{
    arguments_digest, parse_utc_offset, validate_directory_search_arguments,
    validate_note_arguments, ApprovalPolicy, DirectorySearchKindArgument,
    ExecutionAuthorization, RiskLevel, ToolArguments, ToolRegistry,
};
use yukin::errors::{FileError, RuntimeError};
use yukin::files::registry::EntryRegistry;

fn registry() -> ToolRegistry {
    ToolRegistry::built_in(String::new())
}

#[test]
fn rejects_unknown_and_invalid_tool_arguments() {
    let entries = EntryRegistry::new();
    let runtime = registry().check_call(
        &entries,
        "current_time",
        &ToolArguments::CurrentTime {
            utc_offset: "Asia/Shanghai".into(),
        },
        &ExecutionAuthorization::NotRequired,
        r#"{"utcOffset":"Asia/Shanghai"}"#,
    );
    assert!(matches!(
        runtime,
        Err(RuntimeError::InvalidToolArguments { .. })
    ));

    let unknown = registry().check_call(
        &entries,
        "missing",
        &ToolArguments::Invalid {
            message: "unknown".into(),
        },
        &ExecutionAuthorization::NotRequired,
        "{}",
    );
    assert_eq!(unknown, Err(RuntimeError::ToolNotFound("missing".into())));
}

#[test]
fn rejects_a_file_reference_that_was_not_attached_to_the_run() {
    let entries = EntryRegistry::new();
    let result = registry().check_call(
        &entries,
        "read_selected_text_file",
        &ToolArguments::ReadSelectedTextFile {
            reference_id: "not-authorized".into(),
        },
        &ExecutionAuthorization::NotRequired,
        r#"{"referenceId":"not-authorized"}"#,
    );

    assert_eq!(result, Err(RuntimeError::File(FileError::ReferenceInvalid)));
}

#[test]
fn rejects_a_directory_reference_that_was_not_attached_to_the_run() {
    let entries = EntryRegistry::new();
    let result = registry().check_call(
        &entries,
        "list_selected_directory",
        &ToolArguments::ListSelectedDirectory {
            reference_id: "not-authorized".into(),
        },
        &ExecutionAuthorization::NotRequired,
        r#"{"referenceId":"not-authorized"}"#,
    );
    assert_eq!(result, Err(RuntimeError::File(FileError::ReferenceInvalid)));

    assert_eq!(
        registry().validate(
            &entries,
            "create_text_file_in_selected_directory",
            &ToolArguments::CreateTextFile {
                reference_id: "not-authorized".into(),
                file_name: "notes.txt".into(),
                content: "text".into(),
            },
        ),
        Err(RuntimeError::File(FileError::ReferenceInvalid))
    );
    assert_eq!(
        registry().validate(
            &entries,
            "create_directory_in_selected_directory",
            &ToolArguments::CreateDirectory {
                reference_id: "not-authorized".into(),
                directory_name: "reports".into(),
            },
        ),
        Err(RuntimeError::File(FileError::ReferenceInvalid))
    );
    assert_eq!(
        registry().validate(
            &entries,
            "copy_directory_entry",
            &ToolArguments::CopyDirectoryEntry {
                reference_id: "not-authorized".into(),
                source_target_reference_id: "source".into(),
                source_relative_path: "source.txt".into(),
                destination_directory_target_reference_id: None,
                destination_directory_relative_path: None,
                destination_name: "copy.txt".into(),
            },
        ),
        Err(RuntimeError::File(FileError::ReferenceInvalid))
    );
}

#[test]
fn rejects_invalid_directory_search_arguments() {
    let entries = EntryRegistry::new();
    let result = registry().check_call(
        &entries,
        "search_selected_directory",
        &ToolArguments::SearchSelectedDirectory {
            reference_id: "not-authorized".into(),
            query: "  ".into(),
            kind: DirectorySearchKindArgument::Any,
        },
        &ExecutionAuthorization::NotRequired,
        r#"{"query":"  ","referenceId":"not-authorized"}"#,
    );

    assert!(matches!(
        result,
        Err(RuntimeError::InvalidToolArguments { .. })
    ));
}

#[test]
fn rejects_note_paths_outside_managed_directory() {
    let entries = EntryRegistry::new();
    let canonical = r#"{"content":"unsafe","fileName":"../note.txt"}"#;
    let output = registry().check_call(
        &entries,
        "save_text_note",
        &ToolArguments::SaveTextNote {
            file_name: "../note.txt".into(),
            content: "unsafe".into(),
        },
        &ExecutionAuthorization::Approved {
            arguments_digest: arguments_digest(canonical).1,
        },
        canonical,
    );

    assert!(matches!(
        output,
        Err(RuntimeError::InvalidToolArguments { .. })
    ));
}

#[test]
fn offers_thirteen_tools_each_with_metadata() {
    let registry = registry();
    let definitions = registry.definitions();
    assert_eq!(definitions.len(), 13);
    assert_eq!(definitions[0].name, "current_time");
    assert_eq!(definitions[12].name, "read_selected_text_file");
    for definition in &definitions {
        assert!(registry.metadata(&definition.name).is_ok());
        let schema: serde_json::Value =
            serde_json::from_str(&definition.input_schema).expect("schema is JSON");
        assert_eq!(schema["type"], "object");
        assert_eq!(schema["additionalProperties"], false);
    }
    assert_eq!(registry.names().len(), 13);
    assert_eq!(
        registry.metadata("save_text_note"),
        Ok((RiskLevel::Write, ApprovalPolicy::Always))
    );
    assert_eq!(
        registry.metadata("open_directory_entry"),
        Ok((RiskLevel::Write, ApprovalPolicy::Always))
    );
    assert_eq!(
        registry.metadata("current_time"),
        Ok((RiskLevel::ReadOnly, ApprovalPolicy::Never))
    );
    assert_eq!(RiskLevel::ReadOnly.as_str(), "read_only");
    assert_eq!(ApprovalPolicy::Always.as_str(), "always");
}

#[test]
fn offers_only_allowed_tools_in_order() {
    let registry = registry();
    let allowed = vec!["save_text_note".to_string(), "current_time".to_string()];
    let definitions = registry.definitions_for(&allowed);
    let names: Vec<&str> = definitions.iter().map(|d| d.name.as_str()).collect();
    assert_eq!(names, vec!["current_time", "save_text_note"]);
}

#[test]
fn approval_binds_the_exact_arguments() {
    let registry = registry();
    let canonical = r#"{"content":"hello","fileName":"note.txt"}"#;
    let (text, digest) = arguments_digest(canonical);
    assert_eq!(text, canonical);
    assert_eq!(digest.len(), 64);
    assert!(digest.chars().all(|c| c.is_ascii_hexdigit() && !c.is_ascii_uppercase()));
    let approved = ExecutionAuthorization::Approved {
        arguments_digest: digest.clone(),
    };
    assert_eq!(registry.authorize_execution("save_text_note", &approved, canonical), Ok(()));
    assert_eq!(
        registry.authorize_execution(
            "save_text_note",
            &approved,
            r#"{"content":"changed","fileName":"note.txt"}"#
        ),
        Err(RuntimeError::InvalidToolApproval("save_text_note".into()))
    );
    assert_eq!(
        registry.authorize_execution("save_text_note", &ExecutionAuthorization::NotRequired, canonical),
        Err(RuntimeError::InvalidToolApproval("save_text_note".into()))
    );
    assert_eq!(
        registry.authorize_execution("current_time", &approved, canonical),
        Err(RuntimeError::InvalidToolApproval("current_time".into()))
    );
    assert_eq!(
        registry.authorize_execution("current_time", &ExecutionAuthorization::NotRequired, "{}"),
        Ok(())
    );
}

#[test]
fn parses_utc_offsets() {
    assert_eq!(parse_utc_offset("+08:00"), Ok(8 * 3600));
    assert_eq!(parse_utc_offset("-05:30"), Ok(-(5 * 3600 + 30 * 60)));
    assert_eq!(parse_utc_offset("+00:00"), Ok(0));
    assert_eq!(parse_utc_offset("+23:59"), Ok(23 * 3600 + 59 * 60));
    for invalid in ["+24:00", "+08:60", "08:00", "+8:00", "+08:00 ", "Asia/Shanghai", "＋08:00"] {
        match parse_utc_offset(invalid) {
            Err(RuntimeError::InvalidToolArguments { name, message }) => {
                assert_eq!(name, "current_time");
                assert_eq!(
                    message,
                    format!("utcOffset must use ±HH:MM format, received {invalid}")
                );
            }
            other => panic!("unexpected {other:?}"),
        }
    }
}

#[test]
fn validates_note_names_and_sizes() {
    assert_eq!(validate_note_arguments("note.txt", "hi"), Ok(()));
    assert_eq!(validate_note_arguments("note.txt/", "hi"), Ok(()));
    for name in ["../note.txt", ".note.txt", "dir/note.txt", "note.md", "/note.txt", "note", ""] {
        assert!(matches!(
            validate_note_arguments(name, "hi"),
            Err(RuntimeError::InvalidToolArguments { message, .. })
                if message == "fileName must be a plain .txt name without directories"
        ));
    }
    let large = "a".repeat(32 * 1024 + 1);
    assert!(matches!(
        validate_note_arguments("note.txt", &large),
        Err(RuntimeError::InvalidToolArguments { message, .. })
            if message == "content must not exceed 32 KiB"
    ));
    assert_eq!(validate_note_arguments("note.txt", &"a".repeat(32 * 1024)), Ok(()));
}

#[test]
fn validates_search_queries() {
    assert_eq!(validate_directory_search_arguments("search", " report "), Ok(()));
    assert!(validate_directory_search_arguments("search", "   ").is_err());
    assert!(validate_directory_search_arguments("search", &"x".repeat(129)).is_err());
    assert_eq!(validate_directory_search_arguments("search", &"文".repeat(128)), Ok(()));
    assert!(validate_directory_search_arguments("search", "a\u{7}b").is_err());
}

#[test]
fn arguments_of_another_tool_are_refused() {
    let entries = EntryRegistry::new();
    let result = registry().validate(
        &entries,
        "current_time",
        &ToolArguments::ListSelectedDirectory {
            reference_id: "x".into(),
        },
    );
    assert!(matches!(
        result,
        Err(RuntimeError::InvalidToolArguments { .. })
    ));
}

#[test]
fn file_read_result_summary_excludes_content() {
    let registry = registry();
    assert_eq!(
        registry.result_summary_fields("read_selected_text_file"),
        Some(vec!["fileName", "size", "read"])
    );
    assert_eq!(registry.result_summary_fields("current_time"), None);
}

#[test]
fn tool_names_are_distinct_and_schemas_are_closed_objects() {
    let names = registry().names();
    let distinct: std::collections::HashSet<&String> = names.iter().collect();
    assert_eq!(distinct.len(), names.len());
    assert_eq!(names.len(), 13);
    for definition in registry().definitions() {
        assert!(definition.input_schema.starts_with("{\"type\":\"object\""));
        assert!(definition.input_schema.ends_with("\"additionalProperties\":false}"));
        assert!(registry().metadata(&definition.name).is_ok());
    }
}

#[test]
fn error_codes_differ_between_kinds() {
    let file_errors = [
        FileError::ReferenceInvalid,
        FileError::EntryReferenceInvalid,
        FileError::InvalidName,
        FileError::DirectoryNameInvalid,
        FileError::AlreadyExists,
        FileError::CopyDestinationInvalid,
        FileError::CopyLimitExceeded,
        FileError::CopyIntoSource,
        FileError::MoveDestinationInvalid,
        FileError::MoveIntoSource,
        FileError::Trash,
        FileError::BatchMoveInvalid,
        FileError::NotRegularFile,
        FileError::NotDirectory,
        FileError::DirectoryScopeTooBroad,
        FileError::DirectoryScopeSensitive,
        FileError::EntryOutsideScope,
        FileError::EntryUnsupported,
        FileError::Symlink,
        FileError::TooLarge,
        FileError::CreatedTextTooLarge,
        FileError::InvalidEncoding,
        FileError::NotText,
        FileError::Changed,
        FileError::SystemAction(String::new()),
        FileError::Io(String::new()),
    ];
    let codes: std::collections::HashSet<&str> = file_errors.iter().map(FileError::code).collect();
    assert_eq!(codes.len(), file_errors.len());
    assert_eq!(RuntimeError::File(FileError::Trash).code(), "file_trash");
    assert_ne!(RuntimeError::StepLimit.code(), RuntimeError::ToolCallLimit.code());
}

#[test]
fn calls_need_a_matching_approval_and_safe_note_names() {
    let entries = EntryRegistry::new();
    let canonical = r#"{"content":"approved content","fileName":"note.txt"}"#;
    let note = ToolArguments::SaveTextNote {
        file_name: "note.txt".into(),
        content: "approved content".into(),
    };
    assert_eq!(
        registry().check_call(&entries, "save_text_note", &note, &ExecutionAuthorization::NotRequired, canonical),
        Err(RuntimeError::InvalidToolApproval("save_text_note".into()))
    );
    let approved = ExecutionAuthorization::Approved {
        arguments_digest: arguments_digest(canonical).1,
    };
    assert_eq!(
        registry().check_call(&entries, "save_text_note", &note, &approved, canonical),
        Ok(())
    );
    let other = ExecutionAuthorization::Approved {
        arguments_digest: arguments_digest("{}").1,
    };
    assert_eq!(
        registry().check_call(&entries, "save_text_note", &note, &other, canonical),
        Err(RuntimeError::InvalidToolApproval("save_text_note".into()))
    );
    let unsafe_canonical = r#"{"content":"unsafe","fileName":"../note.txt"}"#;
    let unsafe_note = ToolArguments::SaveTextNote {
        file_name: "../note.txt".into(),
        content: "unsafe".into(),
    };
    let unsafe_approval = ExecutionAuthorization::Approved {
        arguments_digest: arguments_digest(unsafe_canonical).1,
    };
    assert!(matches!(
        registry().check_call(&entries, "save_text_note", &unsafe_note, &unsafe_approval, unsafe_canonical),
        Err(RuntimeError::InvalidToolArguments { .. })
    ));
}
