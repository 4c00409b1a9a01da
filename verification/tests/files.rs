use yukin::errors::FileError;
use yukin::files::moves::{
    check_batch_independent, check_batch_request, check_batch_size, check_destination_free,
    copy_target,
    mark_batch_conflict, mark_late_conflict, move_target, plan_batch_move,
    BatchMoveEntryRequest, BatchMovePlan, MoveRollback,
};
use yukin::files::registry::EntryRegistry;
use yukin::files::scopes::{
    check_entry_kind, check_entry_scope, check_selected_directory, check_selected_file,
    entry_metadata, is_sensitive_scope, sensitive_system_directories, FsKind,
    SelectedDirectories, SelectedFiles,
};
use yukin::files::walk::{
    finish_listing, finish_search, is_search_hit, normalize_query, search_visit, CopyPlan,
    CopyWalk, ListingWalk, SearchVisit, SearchWalk,
};
use yukin::files::{
    decode_text, digest, map_create_error, validate_copy_destination_name,
    validate_created_directory, validate_created_entry_name, validate_created_text_file,
    validate_move_destination_name, BatchMoveConflictStrategy, BatchMoveItemStatus,
    DirectorySearchKind,
};
use yukin::paths::{path_components, PathPart};

fn parts(path: &str) -> Vec<PathPart> {
    path_components(path)
}

#[test]
fn created_entry_names_are_plain_and_bounded() {
    for valid in ["notes.txt", "报告", "a b", "x".repeat(128).as_str()] {
        assert!(validate_created_entry_name(valid), "{valid}");
    }
    for invalid in [
        "",
        " padded",
        "padded ",
        ".hidden",
        "..",
        ".",
        "a/b",
        "a\\b",
        "tab\there",
        "x".repeat(129).as_str(),
        "文".repeat(43).as_str(),
    ] {
        assert!(!validate_created_entry_name(invalid), "{invalid:?}");
    }
    assert_eq!(validate_created_directory("reports"), Ok(()));
    assert_eq!(
        validate_created_directory("../reports"),
        Err(FileError::DirectoryNameInvalid)
    );
    assert_eq!(
        validate_copy_destination_name("a/b"),
        Err(FileError::CopyDestinationInvalid)
    );
    assert_eq!(
        validate_move_destination_name(""),
        Err(FileError::MoveDestinationInvalid)
    );
}

#[test]
fn created_text_files_need_a_txt_name_and_bounded_content() {
    assert_eq!(validate_created_text_file("notes.txt", "hello"), Ok(()));
    assert_eq!(
        validate_created_text_file("notes.md", "hello"),
        Err(FileError::InvalidName)
    );
    assert_eq!(
        validate_created_text_file("notes.TXT", "hello"),
        Err(FileError::InvalidName)
    );
    assert_eq!(
        validate_created_text_file("notes.txt", &"a".repeat(32 * 1024 + 1)),
        Err(FileError::CreatedTextTooLarge)
    );
    assert_eq!(
        validate_created_text_file("bad/notes.txt", &"a".repeat(32 * 1024 + 1)),
        Err(FileError::InvalidName)
    );
}

#[test]
fn decodes_only_utf8_text() {
    assert_eq!(decode_text("line\r\n\ttab".as_bytes().to_vec()), Ok("line\r\n\ttab".into()));
    assert_eq!(decode_text(vec![0xff, 0xfe]), Err(FileError::InvalidEncoding));
    assert_eq!(decode_text(vec![b'a', 0x00]), Err(FileError::NotText));
    assert_eq!(decode_text("\u{85}".as_bytes().to_vec()), Err(FileError::NotText));
}

#[test]
fn digests_are_lowercase_sha256_hex() {
    assert_eq!(
        digest(b"abc"),
        "ba7816bf8f01cfea414140de5dae2223b00361a396177a9cb410ff61f20015ad"
    );
    assert_eq!(
        digest(b""),
        "e3b0c44298fc1c149afbf4c8996fb92427ae41e4649b934ca495991b7852b855"
    );
}

#[test]
fn create_errors_keep_their_kind() {
    assert_eq!(map_create_error(true, "exists".into()), FileError::AlreadyExists);
    assert_eq!(map_create_error(false, "denied".into()), FileError::Io("denied".into()));
    assert_eq!(FileError::AlreadyExists.code(), "file_already_exists");
}

#[test]
fn search_kinds_filter_entries() {
    assert!(DirectorySearchKind::Any.matches(DirectorySearchKind::File));
    assert!(DirectorySearchKind::File.matches(DirectorySearchKind::File));
    assert!(!DirectorySearchKind::File.matches(DirectorySearchKind::Directory));
    assert_eq!(DirectorySearchKind::Directory.as_str(), "directory");
    assert_eq!(BatchMoveItemStatus::Skipped.as_str(), "skipped");
}

fn selected_directory() -> (SelectedDirectories, yukin::protocol::file::DirectoryReference) {
    let mut selected = SelectedDirectories::new();
    let reference = selected
        .register(parts("/home/user/docs"), parts("/home/user/docs"), false)
        .expect("directory scope");
    (selected, reference)
}

#[test]
fn directory_scopes_refuse_roots_sensitive_and_nameless_paths() {
    let mut selected = SelectedDirectories::new();
    assert_eq!(
        selected.register(parts("/"), parts("/"), false),
        Err(FileError::DirectoryScopeTooBroad)
    );
    assert_eq!(
        selected.register(parts("/home/user"), parts("/home/user"), true),
        Err(FileError::DirectoryScopeSensitive)
    );
    assert_eq!(
        selected.register(parts("/home/user/.."), parts("/home"), false),
        Err(FileError::InvalidName)
    );
    let reference = selected
        .register(parts("/home/user/docs"), parts("/home/user/docs"), false)
        .expect("directory scope");
    assert_eq!(reference.name, "docs");
}

#[test]
fn registered_entries_validate_until_their_tree_is_forgotten() {
    let (mut selected, reference) = selected_directory();
    let directory = selected.take(&reference).expect("taken");
    let mut entries = EntryRegistry::new();
    let report = directory.register_entry(
        &mut entries,
        parts("/home/user/docs/reports"),
        "reports",
        "reports".into(),
    );
    let nested = directory.register_entry(
        &mut entries,
        parts("/home/user/docs/reports/q1.txt"),
        "reports/./q1.txt",
        "q1.txt".into(),
    );
    let other = directory.register_entry(
        &mut entries,
        parts("/home/user/docs/reports2"),
        "reports2",
        "reports2".into(),
    );
    assert_eq!(
        directory.register_entry(
            &mut entries,
            parts("/home/user/docs/reports"),
            "reports",
            "reports".into()
        ),
        report
    );
    assert!(directory.validates_entry_reference(&entries, &report, "reports"));
    assert!(directory.validates_entry_reference(&entries, &nested, "reports/q1.txt"));
    assert!(!directory.validates_entry_reference(&entries, &nested, "reports/./q1.txt"));
    assert!(!directory.validates_entry_reference(&entries, &report, "other"));

    directory.invalidate_entry_tree(&mut entries, "reports");
    assert!(!directory.validates_entry_reference(&entries, &report, "reports"));
    assert!(!directory.validates_entry_reference(&entries, &nested, "reports/q1.txt"));
    assert!(directory.validates_entry_reference(&entries, &other, "reports2"));
    assert_eq!(
        directory.entry(&entries, &report).err(),
        Some(FileError::EntryReferenceInvalid)
    );
    let record = directory.entry(&entries, &other).expect("kept entry");
    assert_eq!(record.name, "reports2");
}

#[test]
fn a_taken_directory_must_match_its_reference_and_is_gone_afterwards() {
    let (mut selected, reference) = selected_directory();
    let mut wrong = reference.clone();
    wrong.name = "other".into();
    assert_eq!(selected.take(&wrong).err(), Some(FileError::ReferenceInvalid));
    assert_eq!(selected.take(&reference).err(), Some(FileError::ReferenceInvalid));

    let (mut selected, reference) = selected_directory();
    let directory = selected.take(&reference).expect("taken once");
    assert_eq!(directory.reference().name, "docs");
    assert_eq!(selected.take(&reference).err(), Some(FileError::ReferenceInvalid));
}

#[test]
fn attached_files_read_back_only_while_unchanged() {
    let mut files = SelectedFiles::new();
    assert_eq!(
        files.register(parts("/tmp/big.txt"), parts("/tmp/big.txt"), vec![b'a'; 16 * 1024 + 1]),
        Err(FileError::TooLarge)
    );
    assert_eq!(
        files.register(parts("/tmp/bad.txt"), parts("/tmp/bad.txt"), vec![0xff]),
        Err(FileError::InvalidEncoding)
    );
    let reference = files
        .register(parts("/tmp/notes.txt"), parts("/tmp/notes.txt"), b"hello".to_vec())
        .expect("attached");
    assert_eq!(reference.name, "notes.txt");
    assert_eq!(reference.size, 5);
    let file = files.take(&reference).expect("taken");
    assert_eq!(file.read(&parts("/tmp/notes.txt"), b"hello".to_vec()), Ok("hello".into()));
    assert_eq!(
        file.read(&parts("/tmp/notes.txt"), b"hellO".to_vec()),
        Err(FileError::Changed)
    );
    assert_eq!(
        file.read(&parts("/tmp/other.txt"), b"hello".to_vec()),
        Err(FileError::Changed)
    );
    assert_eq!(files.take(&reference).err(), Some(FileError::ReferenceInvalid));
}

#[test]
fn entries_must_be_plain_files_or_directories_inside_the_scope() {
    assert_eq!(check_entry_kind(FsKind::Symlink), Err(FileError::Symlink));
    assert_eq!(check_entry_kind(FsKind::Other), Err(FileError::EntryUnsupported));
    assert_eq!(check_entry_kind(FsKind::File), Ok(()));
    assert_eq!(
        check_entry_scope(&parts("/home/user/docs/a"), &parts("/home/user/docs")),
        Ok(())
    );
    assert_eq!(
        check_entry_scope(&parts("/home/user/docs2/a"), &parts("/home/user/docs")),
        Err(FileError::EntryOutsideScope)
    );
}

#[test]
fn entry_metadata_reports_lowercase_extensions_for_files_only() {
    let (mut selected, reference) = selected_directory();
    let directory = selected.take(&reference).expect("taken");
    let mut entries = EntryRegistry::new();
    let id = directory.register_entry(
        &mut entries,
        parts("/home/user/docs/Photo.JPG"),
        "Photo.JPG",
        "Photo.JPG".into(),
    );
    let record = directory.entry(&entries, &id).expect("entry");
    let file = entry_metadata(&record, false, 42, None);
    assert_eq!(file.extension.as_deref(), Some("jpg"));
    assert_eq!(file.size, Some(42));
    assert_eq!(file.kind, DirectorySearchKind::File);
    let dir = entry_metadata(&record, true, 42, Some("2024".into()));
    assert_eq!(dir.extension, None);
    assert_eq!(dir.size, None);
    assert_eq!(dir.modified_at.as_deref(), Some("2024"));
}

#[test]
fn moves_never_land_inside_or_onto_their_source() {
    let source = parts("/root/docs/a");
    assert_eq!(
        move_target(&source, true, &parts("/root/docs/a/b"), "a").err(),
        Some(FileError::MoveIntoSource)
    );
    assert_eq!(
        move_target(&source, false, &parts("/root/docs"), "a").err(),
        Some(FileError::AlreadyExists)
    );
    let landed = move_target(&source, true, &parts("/root/docs/b"), "a").expect("lands");
    assert_eq!(landed.len(), parts("/root/docs/b/a").len());
    assert_eq!(
        copy_target(&source, true, &parts("/root/docs/a"), "copy").err(),
        Some(FileError::CopyIntoSource)
    );
    assert!(copy_target(&source, false, &parts("/root/docs/a"), "copy").is_ok());
}

fn record(entries: &mut EntryRegistry, directory: &yukin::files::scopes::AuthorizedDirectory, rel: &str) -> yukin::files::registry::DirectoryEntryRecord {
    let id = directory.register_entry(entries, parts(&format!("/home/user/docs/{rel}")), rel, rel.into());
    directory.entry(entries, &id).expect("recorded")
}

fn plan(
    entries: &mut EntryRegistry,
    directory: &yukin::files::scopes::AuthorizedDirectory,
    source: &str,
    destination_dir: &str,
    name: &str,
) -> BatchMovePlan {
    let record = record(entries, directory, source);
    plan_batch_move(
        record,
        parts(&format!("/home/user/docs/{source}")),
        false,
        1,
        parts(&format!("/home/user/docs/{destination_dir}")),
        destination_dir,
        name.into(),
    )
    .expect("plan")
}

#[test]
fn batch_moves_count_moved_and_skipped_entries() {
    assert_eq!(check_batch_size(0), Err(FileError::BatchMoveInvalid));
    assert_eq!(check_batch_size(21), Err(FileError::BatchMoveInvalid));
    assert_eq!(check_batch_size(20), Ok(()));

    let (mut selected, reference) = selected_directory();
    let directory = selected.take(&reference).expect("taken");
    let mut entries = EntryRegistry::new();
    let mut plans = vec![
        plan(&mut entries, &directory, "a.txt", "archive", "a.txt"),
        plan(&mut entries, &directory, "b.txt", "archive", "a.txt"),
        plan(&mut entries, &directory, "c.txt", "archive", "c.txt"),
    ];
    assert_eq!(plans[0].destination_relative_path, "archive/a.txt");
    assert_eq!(check_batch_independent(&plans), Ok(()));
    let duplicate = BatchMoveEntryRequest {
        source_reference_id: plans[0].source.reference_id.clone(),
        destination_directory_reference_id: None,
        destination_name: "x.txt".into(),
    };
    assert_eq!(check_batch_request(&plans, &duplicate), Err(FileError::BatchMoveInvalid));

    assert_eq!(mark_batch_conflict(&mut plans, 0, false, BatchMoveConflictStrategy::Skip), Ok(()));
    assert_eq!(mark_batch_conflict(&mut plans, 1, false, BatchMoveConflictStrategy::Skip), Ok(()));
    assert!(!plans[0].conflict);
    assert!(plans[1].conflict);
    assert_eq!(mark_batch_conflict(&mut plans, 2, true, BatchMoveConflictStrategy::Skip), Ok(()));
    assert!(plans[2].conflict);

    let result = directory.finish_batch_move(&mut entries, plans);
    assert_eq!(result.items.len(), 3);
    assert_eq!(result.moved, 1);
    assert_eq!(result.skipped, 2);
    assert_eq!(result.items[0].status, BatchMoveItemStatus::Moved);
    assert_eq!(result.items[0].previous_relative_path, "a.txt");
    assert!(result.items[0].target_reference_id.is_some());
    assert_eq!(result.items[1].error_code, Some("file_already_exists"));
    assert!(directory.validates_entry_reference(
        &entries,
        result.items[0].target_reference_id.as_ref().unwrap(),
        "archive/a.txt"
    ));
}

#[test]
fn batch_moves_fail_on_conflicts_when_asked_to() {
    let (mut selected, reference) = selected_directory();
    let directory = selected.take(&reference).expect("taken");
    let mut entries = EntryRegistry::new();
    let mut plans = vec![
        plan(&mut entries, &directory, "a.txt", "archive", "a.txt"),
        plan(&mut entries, &directory, "b.txt", "archive", "a.txt"),
    ];
    assert_eq!(mark_batch_conflict(&mut plans, 0, false, BatchMoveConflictStrategy::Fail), Ok(()));
    assert_eq!(
        mark_batch_conflict(&mut plans, 1, false, BatchMoveConflictStrategy::Fail),
        Err(FileError::AlreadyExists)
    );
    assert_eq!(
        mark_late_conflict(&mut plans, 0, BatchMoveConflictStrategy::Fail),
        Err(FileError::AlreadyExists)
    );
    assert_eq!(mark_late_conflict(&mut plans, 0, BatchMoveConflictStrategy::Skip), Ok(()));
    assert!(plans[0].conflict);
}

#[test]
fn nested_sources_make_a_batch_invalid() {
    let (mut selected, reference) = selected_directory();
    let directory = selected.take(&reference).expect("taken");
    let mut entries = EntryRegistry::new();
    let plans = vec![
        plan(&mut entries, &directory, "a", "", "x"),
        plan(&mut entries, &directory, "a/b", "", "y"),
    ];
    assert_eq!(check_batch_independent(&plans), Err(FileError::BatchMoveInvalid));
}

#[test]
fn rollback_undoes_moves_latest_first() {
    let mut rollback = MoveRollback::new();
    rollback.push(parts("/d/a"), parts("/d/x/a"));
    rollback.push(parts("/d/b"), parts("/d/x/b"));
    let steps = rollback.undo_steps();
    assert_eq!(steps.len(), 2);
    assert_eq!(steps[0].0.len(), parts("/d/x/b").len());
    let mut disarmed = MoveRollback::new();
    disarmed.push(parts("/d/a"), parts("/d/x/a"));
    disarmed.disarm();
    assert!(disarmed.undo_steps().is_empty());
}

#[test]
fn copy_plans_stay_within_their_limits() {
    assert_eq!(CopyPlan::for_file(16 * 1024 * 1024 + 1).err(), Some(FileError::CopyLimitExceeded));
    let single = CopyPlan::for_file(10).expect("file plan");
    assert_eq!(single.copied_entries, 1);
    assert_eq!(single.copied_bytes, 10);
    assert_eq!(CopyPlan::check_depth(9), Err(FileError::CopyLimitExceeded));
    assert_eq!(CopyPlan::check_depth(8), Ok(()));

    let mut plan = CopyPlan::for_directory();
    assert_eq!(plan.add_child("", "sub", FsKind::Directory, 0), Ok(true));
    assert_eq!(plan.add_child("sub", "a.txt", FsKind::File, 5), Ok(false));
    assert_eq!(plan.entries[1].relative_path, "sub/a.txt");
    assert_eq!(plan.copied_entries, 3);
    assert_eq!(plan.copied_bytes, 5);
    assert_eq!(plan.add_child("", "link", FsKind::Symlink, 0), Err(FileError::Symlink));
    assert_eq!(plan.add_child("", "fifo", FsKind::Other, 0), Err(FileError::EntryUnsupported));
    assert_eq!(
        plan.add_child("", "huge", FsKind::File, 16 * 1024 * 1024),
        Err(FileError::CopyLimitExceeded)
    );

    let mut many = CopyPlan::for_directory();
    for index in 0..99 {
        assert_eq!(many.add_child("", &format!("f{index}"), FsKind::File, 0), Ok(false));
    }
    assert_eq!(
        many.add_child("", "one-too-many", FsKind::File, 0),
        Err(FileError::CopyLimitExceeded)
    );
}

#[test]
fn searches_visit_within_depth_and_match_names() {
    assert_eq!(search_visit(0, FsKind::Directory), SearchVisit::Consider { descend: true });
    assert_eq!(search_visit(3, FsKind::Directory), SearchVisit::Consider { descend: false });
    assert_eq!(search_visit(4, FsKind::File), SearchVisit::Skip);
    assert_eq!(search_visit(0, FsKind::Symlink), SearchVisit::Skip);
    assert_eq!(search_visit(0, FsKind::Other), SearchVisit::Skip);
    let query = normalize_query("REPORT");
    assert!(is_search_hit("Q1-Report.txt", &query, DirectorySearchKind::Any, DirectorySearchKind::File));
    assert!(!is_search_hit("Q1-Report.txt", &query, DirectorySearchKind::Directory, DirectorySearchKind::File));
    assert!(!is_search_hit("notes.txt", &query, DirectorySearchKind::Any, DirectorySearchKind::File));
    assert!(is_search_hit("anything", "", DirectorySearchKind::Any, DirectorySearchKind::File));
}

#[test]
fn search_results_stop_at_fifty_and_sort_by_path() {
    let (mut selected, reference) = selected_directory();
    let directory = selected.take(&reference).expect("taken");
    let mut entries = EntryRegistry::new();
    let mut results = Vec::new();
    for index in (0..55).rev() {
        let name = format!("n{index:02}");
        let added = directory.record_search_hit(
            &mut entries,
            &mut results,
            parts(&format!("/home/user/docs/sub/{name}")),
            "sub",
            name,
            false,
            1,
        );
        assert_eq!(added, results.len() <= 50 && index >= 5);
    }
    assert_eq!(results.len(), 50);
    let search = finish_search(results, true);
    assert!(search.truncated);
    assert_eq!(search.entries[0].relative_path, "sub/n05");
    assert!(search
        .entries
        .windows(2)
        .all(|pair| pair[0].relative_path <= pair[1].relative_path));
}

#[test]
fn listings_are_sorted_by_name() {
    let (mut selected, reference) = selected_directory();
    let directory = selected.take(&reference).expect("taken");
    let mut entries = EntryRegistry::new();
    let mut listing = Vec::new();
    for (name, kind) in [
        ("zeta", FsKind::File),
        ("alpha", FsKind::Directory),
        ("link", FsKind::Symlink),
        ("Beta", FsKind::Other),
    ] {
        directory.list_child(
            &mut entries,
            &mut listing,
            parts(&format!("/home/user/docs/{name}")),
            name.into(),
            kind,
            7,
        );
    }
    let listing = finish_listing(listing, false);
    let names: Vec<&str> = listing.entries.iter().map(|e| e.name.as_str()).collect();
    assert_eq!(names, vec!["Beta", "alpha", "link", "zeta"]);
    assert_eq!(listing.entries[0].kind, "other");
    assert_eq!(listing.entries[3].size, Some(7));
    assert!(listing.entries[1].target_reference_id.is_some());
    assert!(listing.entries[2].target_reference_id.is_none());
}

#[test]
fn only_small_regular_files_can_be_attached() {
    assert_eq!(check_selected_file(FsKind::File, 0), Ok(()));
    assert_eq!(check_selected_file(FsKind::File, 16 * 1024), Ok(()));
    assert_eq!(check_selected_file(FsKind::File, 16 * 1024 + 1), Err(FileError::TooLarge));
    assert_eq!(check_selected_file(FsKind::Symlink, 1), Err(FileError::Symlink));
    assert_eq!(check_selected_file(FsKind::Directory, 1), Err(FileError::NotRegularFile));
    assert_eq!(check_selected_file(FsKind::Other, 1), Err(FileError::NotRegularFile));
}

#[test]
fn only_real_directories_can_be_authorized() {
    assert_eq!(check_selected_directory(FsKind::Directory), Ok(()));
    assert_eq!(check_selected_directory(FsKind::Symlink), Err(FileError::Symlink));
    assert_eq!(check_selected_directory(FsKind::File), Err(FileError::NotDirectory));
    assert_eq!(check_selected_directory(FsKind::Other), Err(FileError::NotDirectory));
}

#[test]
fn home_and_system_directories_are_sensitive_scopes() {
    assert_eq!(sensitive_system_directories(), vec!["/dev", "/etc", "/proc", "/sys"]);
    let sensitive = vec![parts("/home/user"), parts("/etc"), parts("/dev")];
    assert!(is_sensitive_scope(&parts("/home/user"), &sensitive));
    assert!(is_sensitive_scope(&parts("/etc"), &sensitive));
    assert!(!is_sensitive_scope(&parts("/home/user/work"), &sensitive));
    assert!(!is_sensitive_scope(&parts("/home"), &sensitive));
    assert!(!is_sensitive_scope(&parts("/etc"), &Vec::new()));
}

#[test]
fn moves_forget_the_source_tree_and_record_the_destination() {
    let (mut selected, reference) = selected_directory();
    let directory = selected.take(&reference).expect("taken");
    let mut entries = EntryRegistry::new();
    let source = record(&mut entries, &directory, "source");
    let nested = record(&mut entries, &directory, "source/nested/report.txt");
    let other = record(&mut entries, &directory, "destination");
    let source_id = source.reference_id.clone();
    let moved = directory.record_moved(
        &mut entries,
        source,
        parts("/home/user/docs/destination/renamed-source"),
        "destination",
        "renamed-source",
        true,
        0,
        None,
    );
    assert_eq!(moved.previous_relative_path, "source");
    assert_eq!(moved.metadata.relative_path, "destination/renamed-source");
    assert_eq!(
        directory.entry(&entries, &source_id).err(),
        Some(FileError::EntryReferenceInvalid)
    );
    assert_eq!(
        directory.entry(&entries, &nested.reference_id).err(),
        Some(FileError::EntryReferenceInvalid)
    );
    assert!(directory.entry(&entries, &other.reference_id).is_ok());
    assert!(directory.validates_entry_reference(
        &entries,
        &moved.metadata.target_reference_id,
        "destination/renamed-source"
    ));
}

#[test]
fn batch_moves_forget_moved_sources_and_keep_skipped_ones() {
    let (mut selected, reference) = selected_directory();
    let directory = selected.take(&reference).expect("taken");
    let mut entries = EntryRegistry::new();
    let mut plans = vec![
        plan(&mut entries, &directory, "alpha.txt", "destination", "alpha.txt"),
        plan(&mut entries, &directory, "beta.txt", "destination", "beta.txt"),
    ];
    let alpha = plans[0].source.reference_id.clone();
    let beta = plans[1].source.reference_id.clone();
    assert_eq!(mark_batch_conflict(&mut plans, 0, false, BatchMoveConflictStrategy::Skip), Ok(()));
    assert_eq!(mark_batch_conflict(&mut plans, 1, true, BatchMoveConflictStrategy::Skip), Ok(()));
    let result = directory.finish_batch_move(&mut entries, plans);
    assert_eq!((result.moved, result.skipped), (1, 1));
    assert_eq!(
        directory.entry(&entries, &alpha).err(),
        Some(FileError::EntryReferenceInvalid)
    );
    assert!(directory.entry(&entries, &beta).is_ok());
    assert!(directory.validates_entry_reference(
        &entries,
        result.items[0].target_reference_id.as_ref().unwrap(),
        "destination/alpha.txt"
    ));
    assert_eq!(result.items[1].target_reference_id, None);
}

#[test]
fn taken_destinations_are_refused() {
    assert_eq!(check_destination_free(true), Err(FileError::AlreadyExists));
    assert_eq!(check_destination_free(false), Ok(()));
}

#[test]
fn listings_show_the_first_hundred_children_and_note_the_rest() {
    let (mut selected, reference) = selected_directory();
    let directory = selected.take(&reference).expect("taken");
    let mut entries = EntryRegistry::new();
    let mut walk = ListingWalk::new();
    let mut met = 0;
    for index in (0..105).rev() {
        if walk.is_full() {
            walk.cut();
            break;
        }
        met += 1;
        let name = format!("child-{index:03}");
        let kind = if index % 2 == 0 { FsKind::File } else { FsKind::Symlink };
        walk.offer(&directory, &mut entries, parts(&format!("/home/user/docs/{name}")), name, kind, 3);
    }
    assert_eq!(met, 100);
    let listing = walk.finish();
    assert!(listing.truncated);
    assert_eq!(listing.entries.len(), 100);
    assert_eq!(listing.entries[0].name, "child-005");
    assert_eq!(listing.entries[0].kind, "symlink");
    assert_eq!(listing.entries[0].target_reference_id, None);
    assert_eq!(listing.entries[1].kind, "file");
    assert_eq!(listing.entries[1].size, Some(3));
    assert!(directory.validates_entry_reference(
        &entries,
        listing.entries[1].target_reference_id.as_ref().unwrap(),
        "child-006"
    ));

    let mut small = ListingWalk::new();
    small.offer(&directory, &mut entries, parts("/home/user/docs/b"), "b".into(), FsKind::Directory, 0);
    small.offer(&directory, &mut entries, parts("/home/user/docs/a"), "a".into(), FsKind::Other, 0);
    assert!(!small.is_full());
    let listing = small.finish();
    assert!(!listing.truncated);
    let names: Vec<&str> = listing.entries.iter().map(|e| e.name.as_str()).collect();
    assert_eq!(names, vec!["a", "b"]);
}

#[test]
fn searches_walk_breadth_first_and_stop_at_the_limit() {
    let (mut selected, reference) = selected_directory();
    let directory = selected.take(&reference).expect("taken");
    let mut entries = EntryRegistry::new();
    let mut walk = SearchWalk::new(parts("/home/user/docs"), "Report", DirectorySearchKind::Any);
    assert!(walk.admits_directory(FsKind::Directory, &parts("/home/user/docs/sub")));
    assert!(!walk.admits_directory(FsKind::Symlink, &parts("/home/user/docs/sub")));
    assert!(!walk.admits_directory(FsKind::Directory, &parts("/elsewhere")));
    let root = walk.next_directory().expect("root");
    assert_eq!(root, parts("/home/user/docs"));
    assert!(walk.visit_child(&directory, &mut entries, parts("/home/user/docs/reports"), "reports".into(), FsKind::Directory, 0));
    assert!(walk.visit_child(&directory, &mut entries, parts("/home/user/docs/notes.txt"), "notes.txt".into(), FsKind::File, 4));
    assert!(walk.visit_child(&directory, &mut entries, parts("/home/user/docs/link"), "report-link".into(), FsKind::Symlink, 0));
    let below = walk.next_directory().expect("queued directory");
    assert_eq!(below, parts("/home/user/docs/reports"));
    for index in 0..49 {
        let name = format!("report-{index:02}.txt");
        assert!(walk.visit_child(&directory, &mut entries, parts(&format!("/home/user/docs/reports/{name}")), name, FsKind::File, 1));
    }
    assert!(!walk.stopped());
    assert!(!walk.visit_child(&directory, &mut entries, parts("/home/user/docs/reports/report-99.txt"), "report-99.txt".into(), FsKind::File, 1));
    assert!(walk.stopped());
    assert_eq!(walk.next_directory(), None);
    let search = walk.finish();
    assert!(search.truncated);
    assert_eq!(search.entries.len(), 50);
    assert_eq!(search.entries[0].relative_path, "reports");
    assert_eq!(search.entries[1].relative_path, "reports/report-00.txt");
}

#[test]
fn copy_walks_list_each_entry_after_its_directory() {
    let mut walk = CopyWalk::for_directory(parts("/src"));
    let root = walk.next_directory().expect("root");
    assert_eq!(root, parts("/src"));
    assert_eq!(walk.check_child_depth(), Ok(()));
    assert_eq!(walk.add_child(parts("/src/a.txt"), "a.txt", FsKind::File, 5), Ok(()));
    assert_eq!(walk.add_child(parts("/src/dir"), "dir", FsKind::Directory, 0), Ok(()));
    assert_eq!(walk.add_child(parts("/src/link"), "link", FsKind::Symlink, 0), Err(FileError::Symlink));
    let below = walk.next_directory().expect("queued directory");
    assert_eq!(below, parts("/src/dir"));
    assert_eq!(walk.add_child(parts("/src/dir/b.txt"), "b.txt", FsKind::File, 7), Ok(()));
    assert_eq!(walk.next_directory(), None);
    let plan = walk.finish();
    let paths: Vec<&str> = plan.entries.iter().map(|e| e.relative_path.as_str()).collect();
    assert_eq!(paths, vec!["a.txt", "dir", "dir/b.txt"]);
    assert_eq!(plan.copied_entries, 4);
    assert_eq!(plan.copied_bytes, 12);
}
