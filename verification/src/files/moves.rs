//! The decisions of moving and copying entries inside an authorized
//! directory: where an entry lands, which moves of a batch may happen, and
//! what the agent is told afterwards.

use vstd::prelude::*;

use crate::errors::{file_error_code, FileError};
use crate::files::registry::{
    after_register, copy_parts, has_entry, in_tree, kept, lemma_after_register_contains,
    lemma_kept_contains, outside, placed, DirectoryEntryRecord, EntryRegistry, EntryView,
};
use crate::files::scopes::{
    kind_of, lower_extension, shown_entry, AuthorizedDirectory, DirectoryEntryMetadata,
    DirectoryView, FsKind,
};
use crate::files::{
    valid_entry_name, validate_move_destination_name, BatchMoveConflictStrategy,
    BatchMoveItemStatus, DirectorySearchKind, MAX_BATCH_MOVE_ENTRIES,
};
use crate::paths::{
    child_relative_path, child_relative_path_of, parts_equal, parts_prefix, parts_start_with,
    parts_view, PartView, PathPart,
};
use crate::text::str_eq;

verus! {

/// `dir` with one more normal component `name`.
pub open spec fn joined(dir: Seq<PartView>, name: Seq<char>) -> Seq<PartView> {
    dir.push(PartView::Normal(name))
}

pub fn join_name(dir: &[PathPart], name: &str) -> (r: Vec<PathPart>)
    ensures
        parts_view(r@) == joined(parts_view(dir@), name@),
{
    let mut path = copy_parts(dir);
    let ghost before = parts_view(path@);
    path.push(PathPart::Normal(name.to_owned()));
    assert(parts_view(path@) =~= before.push(PartView::Normal(name@)));
    path
}

/// The error that stops a move of `source` into `directory` as `name`.
pub open spec fn move_target_error(
    source: Seq<PartView>,
    source_is_dir: bool,
    directory: Seq<PartView>,
    name: Seq<char>,
) -> Option<FileError> {
    if source_is_dir && parts_start_with(directory, source) {
        Some(FileError::MoveIntoSource)
    } else if joined(directory, name) == source {
        Some(FileError::AlreadyExists)
    } else {
        None
    }
}

/// Where a moved entry lands: a directory never moves into itself or below
/// itself, and an entry never onto itself.
pub fn move_target(
    source_path: &[PathPart],
    source_is_dir: bool,
    destination_directory: &[PathPart],
    destination_name: &str,
) -> (r: Result<Vec<PathPart>, FileError>)
    ensures
        r is Ok <==> move_target_error(
            parts_view(source_path@),
            source_is_dir,
            parts_view(destination_directory@),
            destination_name@,
        ) is None,
        r matches Ok(path) ==> parts_view(path@) == joined(
            parts_view(destination_directory@),
            destination_name@,
        ),
        r matches Err(e) ==> move_target_error(
            parts_view(source_path@),
            source_is_dir,
            parts_view(destination_directory@),
            destination_name@,
        ) == Some(e),
{
    if source_is_dir && parts_prefix(destination_directory, source_path) {
        return Err(FileError::MoveIntoSource);
    }
    let destination_path = join_name(destination_directory, destination_name);
    if parts_equal(destination_path.as_slice(), source_path) {
        return Err(FileError::AlreadyExists);
    }
    Ok(destination_path)
}

/// Where a copy lands: a directory is never copied into itself or below
/// itself.
pub fn copy_target(
    source_path: &[PathPart],
    source_is_dir: bool,
    destination_directory: &[PathPart],
    destination_name: &str,
) -> (r: Result<Vec<PathPart>, FileError>)
    ensures
        r is Ok <==> !(source_is_dir && parts_start_with(
            parts_view(destination_directory@),
            parts_view(source_path@),
        )),
        r matches Ok(path) ==> parts_view(path@) == joined(
            parts_view(destination_directory@),
            destination_name@,
        ),
        r is Err ==> r == Err::<Vec<PathPart>, FileError>(FileError::CopyIntoSource),
{
    if source_is_dir && parts_prefix(destination_directory, source_path) {
        return Err(FileError::CopyIntoSource);
    }
    Ok(join_name(destination_directory, destination_name))
}

/// A chosen destination directory must be a directory.
pub fn check_destination_kind(is_dir: bool) -> (r: Result<(), FileError>)
    ensures
        r is Ok <==> is_dir,
        r is Err ==> r == Err::<(), FileError>(FileError::NotDirectory),
{
    if is_dir {
        Ok(())
    } else {
        Err(FileError::NotDirectory)
    }
}

/// Just before a move or copy, the source must still be what was resolved:
/// a directory, or a regular file of the same size, and no symbolic link.
pub fn check_source_unchanged(
    kind: FsKind,
    len: u64,
    expected_directory: bool,
    expected_size: u64,
) -> (r: Result<(), FileError>)
    ensures
        r is Ok <==> (if expected_directory {
            kind == FsKind::Directory
        } else {
            kind == FsKind::File && len == expected_size
        }),
        r is Err ==> r == Err::<(), FileError>(FileError::Changed),
{
    let matches = if expected_directory {
        kind == FsKind::Directory
    } else {
        kind == FsKind::File && len == expected_size
    };
    if kind == FsKind::Symlink || !matches {
        Err(FileError::Changed)
    } else {
        Ok(())
    }
}

/// Just before a move or copy, the source must still lie inside its scope.
pub fn check_source_in_scope(canonical_path: &[PathPart], scope: &[PathPart]) -> (r: Result<
    (),
    FileError,
>)
    ensures
        r is Ok <==> parts_start_with(parts_view(canonical_path@), parts_view(scope@)),
        r is Err ==> r == Err::<(), FileError>(FileError::EntryOutsideScope),
{
    if parts_prefix(canonical_path, scope) {
        Ok(())
    } else {
        Err(FileError::EntryOutsideScope)
    }
}

/// Just before a move or copy, the destination directory must still be a
/// directory, no symbolic link, at the very path that was resolved.
pub fn check_destination_unchanged(kind: FsKind, canonical_now: &[PathPart], path: &[PathPart]) -> (r:
    Result<(), FileError>)
    ensures
        r is Ok <==> (kind == FsKind::Directory && parts_view(canonical_now@) == parts_view(path@)),
        r is Err ==> r == Err::<(), FileError>(FileError::Changed),
{
    if kind != FsKind::Directory {
        return Err(FileError::Changed);
    }
    if !parts_equal(canonical_now, path) {
        return Err(FileError::Changed);
    }
    Ok(())
}

/// A copied file must have exactly the size that was planned.
pub fn check_copied_size(copied: u64, expected_size: u64) -> (r: Result<(), FileError>)
    ensures
        r is Ok <==> copied == expected_size,
        r is Err ==> r == Err::<(), FileError>(FileError::Changed),
{
    if copied != expected_size {
        Err(FileError::Changed)
    } else {
        Ok(())
    }
}

/// A move or a copy never replaces what already sits at its destination.
pub fn check_destination_free(exists: bool) -> (r: Result<(), FileError>)
    ensures
        r is Ok <==> !exists,
        r is Err ==> r == Err::<(), FileError>(FileError::AlreadyExists),
{
    if exists {
        Err(FileError::AlreadyExists)
    } else {
        Ok(())
    }
}

/// What the agent learns of a moved entry.
#[derive(Debug, PartialEq, Eq)]
pub struct DirectoryMoveResult {
    pub previous_relative_path: String,
    pub metadata: DirectoryEntryMetadata,
}

/// What the agent learns of a copy.
#[derive(Debug, PartialEq, Eq)]
pub struct DirectoryCopyResult {
    pub metadata: DirectoryEntryMetadata,
    pub copied_entries: usize,
    pub copied_bytes: u64,
}

/// Describes an entry that now sits at `destination_path`, recording it
/// under the directory.
fn record_landed(
    directory: &AuthorizedDirectory,
    entries: &mut EntryRegistry,
    destination_path: Vec<PathPart>,
    destination_relative_directory: &str,
    destination_name: &str,
    is_dir: bool,
    len: u64,
    modified_at: Option<String>,
) -> (r: DirectoryEntryMetadata)
    requires
        old(entries).wf(),
    ensures
        final(entries).wf(),
        has_entry(
            final(entries).records(),
            r.target_reference_id@,
            directory@.reference_id,
            child_relative_path(destination_relative_directory@, destination_name@),
        ),
        r.name@ == destination_name@,
        r.relative_path@ == child_relative_path(destination_relative_directory@, destination_name@),
        r.kind == kind_of(is_dir),
        is_dir ==> r.size is None && r.extension is None,
        !is_dir ==> r.size == Some(len),
        !is_dir ==> (r.extension matches Some(ext) ==> lower_extension(destination_name@) == Some(
            ext@,
        )),
        !is_dir ==> (r.extension is None ==> lower_extension(destination_name@) is None),
        r.modified_at == modified_at,
        final(entries).records() == after_register(
            old(entries).records(),
            shown_entry(
                directory@,
                r.target_reference_id@,
                parts_view(destination_path@),
                destination_name@,
                child_relative_path(destination_relative_directory@, destination_name@),
            ),
        ),
{
    let relative = child_relative_path_of(destination_relative_directory, destination_name);
    let id = directory.register_shown_entry(
        entries,
        destination_path,
        relative.clone(),
        destination_name.to_owned(),
    );
    let extension = if is_dir {
        None
    } else {
        crate::files::scopes::lower_extension_of(destination_name)
    };
    DirectoryEntryMetadata {
        target_reference_id: id,
        name: destination_name.to_owned(),
        relative_path: relative,
        kind: if is_dir {
            DirectorySearchKind::Directory
        } else {
            DirectorySearchKind::File
        },
        size: if is_dir {
            None
        } else {
            Some(len)
        },
        modified_at,
        extension,
    }
}

impl AuthorizedDirectory {
    /// Records a moved entry: forgets the source and everything below it,
    /// records the destination, and describes it.
    pub fn record_moved(
        &self,
        entries: &mut EntryRegistry,
        source: DirectoryEntryRecord,
        destination_path: Vec<PathPart>,
        destination_relative_directory: &str,
        destination_name: &str,
        is_dir: bool,
        len: u64,
        modified_at: Option<String>,
    ) -> (r: DirectoryMoveResult)
        requires
            old(entries).wf(),
        ensures
            final(entries).wf(),
            r.previous_relative_path@ == source@.relative_path,
            has_entry(
                final(entries).records(),
                r.metadata.target_reference_id@,
                self@.reference_id,
                child_relative_path(destination_relative_directory@, destination_name@),
            ),
            r.metadata.name@ == destination_name@,
            r.metadata.relative_path@ == child_relative_path(
                destination_relative_directory@,
                destination_name@,
            ),
            r.metadata.kind == kind_of(is_dir),
            is_dir ==> r.metadata.size is None && r.metadata.extension is None,
            !is_dir ==> r.metadata.size == Some(len),
            !is_dir ==> (r.metadata.extension matches Some(ext) ==> lower_extension(
                destination_name@,
            ) == Some(ext@)),
            !is_dir ==> (r.metadata.extension is None ==> lower_extension(destination_name@) is None),
            r.metadata.modified_at == modified_at,
            final(entries).records() == after_register(
                kept(old(entries).records(), outside(self@.reference_id, Some(source@.relative_path))),
                shown_entry(
                    self@,
                    r.metadata.target_reference_id@,
                    parts_view(destination_path@),
                    destination_name@,
                    child_relative_path(destination_relative_directory@, destination_name@),
                ),
            ),
            forall|x: EntryView|
                #[trigger] final(entries).records().contains(x) && in_tree(
                    x,
                    self@.reference_id,
                    Some(source@.relative_path),
                ) ==> x.relative_path == child_relative_path(
                    destination_relative_directory@,
                    destination_name@,
                ),
    {
        let ghost old_records = entries.records();
        let ghost source_tree = outside(self@.reference_id, Some(source@.relative_path));
        self.invalidate_entry_tree(entries, source.relative_path.as_str());
        let ghost mid = entries.records();
        let ghost dest_rel = child_relative_path(destination_relative_directory@, destination_name@);
        let metadata = record_landed(
            self,
            entries,
            destination_path,
            destination_relative_directory,
            destination_name,
            is_dir,
            len,
            modified_at,
        );
        proof {
            let e = shown_entry(
                self@,
                metadata.target_reference_id@,
                parts_view(destination_path@),
                destination_name@,
                dest_rel,
            );
            assert forall|x: EntryView|
                #[trigger] entries.records().contains(x) && in_tree(
                    x,
                    self@.reference_id,
                    Some(source@.relative_path),
                ) implies x.relative_path == dest_rel by {
                lemma_after_register_contains(mid, e, x);
                lemma_kept_contains(old_records, source_tree, x);
            }
        }
        DirectoryMoveResult { previous_relative_path: source.relative_path, metadata }
    }

    /// Records a finished copy and describes it.
    pub fn record_copied(
        &self,
        entries: &mut EntryRegistry,
        destination_path: Vec<PathPart>,
        destination_relative_directory: &str,
        destination_name: &str,
        is_dir: bool,
        len: u64,
        modified_at: Option<String>,
        copied_entries: usize,
        copied_bytes: u64,
    ) -> (r: DirectoryCopyResult)
        requires
            old(entries).wf(),
        ensures
            final(entries).wf(),
            has_entry(
                final(entries).records(),
                r.metadata.target_reference_id@,
                self@.reference_id,
                child_relative_path(destination_relative_directory@, destination_name@),
            ),
            r.metadata.name@ == destination_name@,
            r.metadata.relative_path@ == child_relative_path(
                destination_relative_directory@,
                destination_name@,
            ),
            r.metadata.kind == kind_of(is_dir),
            is_dir ==> r.metadata.size is None && r.metadata.extension is None,
            !is_dir ==> r.metadata.size == Some(len),
            !is_dir ==> (r.metadata.extension matches Some(ext) ==> lower_extension(
                destination_name@,
            ) == Some(ext@)),
            !is_dir ==> (r.metadata.extension is None ==> lower_extension(destination_name@) is None),
            r.metadata.modified_at == modified_at,
            r.copied_entries == copied_entries,
            r.copied_bytes == copied_bytes,
            final(entries).records() == after_register(
                old(entries).records(),
                shown_entry(
                    self@,
                    r.metadata.target_reference_id@,
                    parts_view(destination_path@),
                    destination_name@,
                    child_relative_path(destination_relative_directory@, destination_name@),
                ),
            ),
    {
        let metadata = record_landed(
            self,
            entries,
            destination_path,
            destination_relative_directory,
            destination_name,
            is_dir,
            len,
            modified_at,
        );
        DirectoryCopyResult { metadata, copied_entries, copied_bytes }
    }
}

/// One move that a batch asks for.
#[derive(Debug)]
pub struct BatchMoveEntryRequest {
    pub source_reference_id: String,
    pub destination_directory_reference_id: Option<String>,
    pub destination_name: String,
}

/// One move of a batch, once its source and destination are resolved.
pub struct BatchMovePlan {
    pub source: DirectoryEntryRecord,
    pub source_path: Vec<PathPart>,
    pub source_is_dir: bool,
    pub source_len: u64,
    pub destination_directory: Vec<PathPart>,
    pub destination_path: Vec<PathPart>,
    pub destination_relative_path: String,
    pub destination_name: String,
    pub conflict: bool,
}

pub struct PlanView {
    pub source: EntryView,
    pub source_path: Seq<PartView>,
    pub source_is_dir: bool,
    pub destination_directory: Seq<PartView>,
    pub destination_path: Seq<PartView>,
    pub destination_relative_path: Seq<char>,
    pub destination_name: Seq<char>,
    pub conflict: bool,
}

impl View for BatchMovePlan {
    type V = PlanView;

    open spec fn view(&self) -> PlanView {
        PlanView {
            source: self.source@,
            source_path: parts_view(self.source_path@),
            source_is_dir: self.source_is_dir,
            destination_directory: parts_view(self.destination_directory@),
            destination_path: parts_view(self.destination_path@),
            destination_relative_path: self.destination_relative_path@,
            destination_name: self.destination_name@,
            conflict: self.conflict,
        }
    }
}

pub open spec fn plans_view(plans: Seq<BatchMovePlan>) -> Seq<PlanView> {
    plans.map_values(|p: BatchMovePlan| p@)
}

/// A batch moves between 1 and 20 entries.
pub fn check_batch_size(count: usize) -> (r: Result<(), FileError>)
    ensures
        r is Ok <==> 1 <= count <= MAX_BATCH_MOVE_ENTRIES,
        r is Err ==> r == Err::<(), FileError>(FileError::BatchMoveInvalid),
{
    if count == 0 || count > MAX_BATCH_MOVE_ENTRIES {
        Err(FileError::BatchMoveInvalid)
    } else {
        Ok(())
    }
}

/// Whether some plan already moves the entry with this id.
pub open spec fn planned_source(plans: Seq<PlanView>, id: Seq<char>) -> bool {
    exists|i: int| 0 <= i < plans.len() && (#[trigger] plans[i]).source.reference_id == id
}

/// The error that refuses the next request of a batch before its entries
/// are resolved, if any.
pub open spec fn batch_request_error(plans: Seq<PlanView>, name: Seq<char>, source_id: Seq<char>) -> Option<
    FileError,
> {
    if !valid_entry_name(name) {
        Some(FileError::MoveDestinationInvalid)
    } else if planned_source(plans, source_id) {
        Some(FileError::BatchMoveInvalid)
    } else {
        None
    }
}

/// Checks the next request of a batch: a valid destination name, and a
/// source that no earlier request moves.
pub fn check_batch_request(plans: &[BatchMovePlan], request: &BatchMoveEntryRequest) -> (r: Result<
    (),
    FileError,
>)
    ensures
        r is Ok <==> batch_request_error(
            plans_view(plans@),
            request.destination_name@,
            request.source_reference_id@,
        ) is None,
        r matches Err(e) ==> batch_request_error(
            plans_view(plans@),
            request.destination_name@,
            request.source_reference_id@,
        ) == Some(e),
{
    match validate_move_destination_name(request.destination_name.as_str()) {
        Ok(()) => {},
        Err(e) => return Err(e),
    }
    let mut i: usize = 0;
    while i < plans.len()
        invariant
            i <= plans@.len(),
            valid_entry_name(request.destination_name@),
            forall|j: int|
                0 <= j < i ==> (#[trigger] plans_view(plans@)[j]).source.reference_id
                    != request.source_reference_id@,
        decreases plans@.len() - i,
    {
        if str_eq(plans[i].source.reference_id.as_str(), request.source_reference_id.as_str()) {
            assert(plans_view(plans@)[i as int].source.reference_id == request.source_reference_id@);
            return Err(FileError::BatchMoveInvalid);
        }
        i = i + 1;
    }
    Ok(())
}

/// Plans one move of a batch from its resolved source and destination
/// directory.
pub fn plan_batch_move(
    source: DirectoryEntryRecord,
    source_path: Vec<PathPart>,
    source_is_dir: bool,
    source_len: u64,
    destination_directory: Vec<PathPart>,
    destination_relative_directory: &str,
    destination_name: String,
) -> (r: Result<BatchMovePlan, FileError>)
    ensures
        r is Ok <==> move_target_error(
            parts_view(source_path@),
            source_is_dir,
            parts_view(destination_directory@),
            destination_name@,
        ) is None,
        r matches Err(e) ==> move_target_error(
            parts_view(source_path@),
            source_is_dir,
            parts_view(destination_directory@),
            destination_name@,
        ) == Some(e),
        r matches Ok(plan) ==> {
            &&& plan@.source == source@
            &&& plan@.source_path == parts_view(source_path@)
            &&& plan@.source_is_dir == source_is_dir
            &&& plan.source_len == source_len
            &&& plan@.destination_directory == parts_view(destination_directory@)
            &&& plan@.destination_path == joined(
                parts_view(destination_directory@),
                destination_name@,
            )
            &&& plan@.destination_relative_path == child_relative_path(
                destination_relative_directory@,
                destination_name@,
            )
            &&& plan@.destination_name == destination_name@
            &&& !plan@.conflict
        },
{
    let destination_path = match move_target(
        source_path.as_slice(),
        source_is_dir,
        destination_directory.as_slice(),
        destination_name.as_str(),
    ) {
        Ok(path) => path,
        Err(e) => return Err(e),
};
    let destination_relative_path = child_relative_path_of(
        destination_relative_directory,
        destination_name.as_str(),
    );
    Ok(
        BatchMovePlan {
            source,
            source_path,
            source_is_dir,
            source_len,
            destination_directory,
            destination_path,
            destination_relative_path,
            destination_name,
            conflict: false,
        },
    )
}

/// Two moves of a batch are independent when neither source lies in the
/// other, and neither lands inside the other's source.
pub open spec fn independent_moves(left: PlanView, right: PlanView) -> bool {
    !parts_start_with(left.source_path, right.source_path) && !parts_start_with(
        right.source_path,
        left.source_path,
    ) && !parts_start_with(left.destination_directory, right.source_path) && !parts_start_with(
        right.destination_directory,
        left.source_path,
    )
}

pub open spec fn independent_batch(plans: Seq<PlanView>) -> bool {
    forall|l: int, r: int|
        #![trigger plans[l], plans[r]]
        0 <= l < r < plans.len() ==> independent_moves(plans[l], plans[r])
}

/// The moves of a batch must be independent of each other.
pub fn check_batch_independent(plans: &[BatchMovePlan]) -> (r: Result<(), FileError>)
    ensures
        r is Ok <==> independent_batch(plans_view(plans@)),
        r is Err ==> r == Err::<(), FileError>(FileError::BatchMoveInvalid),
{
    let ghost pv = plans_view(plans@);
    let n = plans.len();
    let mut l: usize = 0;
    while l < n
        invariant
            n == plans@.len(),
            pv == plans_view(plans@),
            l <= n,
            forall|a: int, b: int|
                #![trigger pv[a], pv[b]]
                0 <= a < l && a < b < n ==> independent_moves(pv[a], pv[b]),
        decreases n - l,
    {
        let mut r: usize = l + 1;
        while r < n
            invariant
                n == plans@.len(),
                pv == plans_view(plans@),
                l < n,
                l + 1 <= r <= n,
                forall|a: int, b: int|
                    #![trigger pv[a], pv[b]]
                    0 <= a < l && a < b < n ==> independent_moves(pv[a], pv[b]),
                forall|b: int| #![trigger pv[b]] l < b < r ==> independent_moves(pv[l as int], pv[b]),
            decreases n - r,
        {
            let left = &plans[l];
            let right = &plans[r];
            assert(pv[l as int] == left@ && pv[r as int] == right@);
            if parts_prefix(left.source_path.as_slice(), right.source_path.as_slice())
                || parts_prefix(right.source_path.as_slice(), left.source_path.as_slice())
                || parts_prefix(left.destination_directory.as_slice(), right.source_path.as_slice())
                || parts_prefix(right.destination_directory.as_slice(), left.source_path.as_slice()) {
                assert(!independent_moves(pv[l as int], pv[r as int]));
                return Err(FileError::BatchMoveInvalid);
            }
            r = r + 1;
        }
        l = l + 1;
    }
    Ok(())
}

/// Whether an earlier plan of the batch lands on the same path.
pub open spec fn lands_on_earlier(plans: Seq<PlanView>, index: int) -> bool {
    exists|j: int| 0 <= j < index && (#[trigger] plans[j]).destination_path == plans[index].destination_path
}

/// Marks the plan at `index` as conflicting when its destination is taken,
/// by an existing entry or by an earlier plan: the batch fails or skips it.
pub fn mark_batch_conflict(
    plans: &mut Vec<BatchMovePlan>,
    index: usize,
    target_exists: bool,
    strategy: BatchMoveConflictStrategy,
) -> (r: Result<(), FileError>)
    requires
        index < old(plans)@.len(),
    ensures
        ({
            let taken = target_exists || lands_on_earlier(plans_view(old(plans)@), index as int);
            &&& (taken && strategy == BatchMoveConflictStrategy::Fail) ==> r == Err::<(), FileError>(
                FileError::AlreadyExists,
            )
            &&& !(taken && strategy == BatchMoveConflictStrategy::Fail) ==> r is Ok
            &&& (taken && strategy == BatchMoveConflictStrategy::Skip) ==> plans_view(final(plans)@)
                == plans_view(old(plans)@).update(
                index as int,
                PlanView { conflict: true, ..plans_view(old(plans)@)[index as int] },
            )
            &&& !(taken && strategy == BatchMoveConflictStrategy::Skip) ==> plans_view(final(plans)@)
                == plans_view(old(plans)@)
        }),
{
    let ghost pv = plans_view(plans@);
    let mut earlier = false;
    let mut j: usize = 0;
    while j < index
        invariant
            pv == plans_view(plans@),
            index < plans@.len(),
            j <= index,
            earlier == exists|k: int| 0 <= k < j && (#[trigger] pv[k]).destination_path
                == pv[index as int].destination_path,
        decreases index - j,
    {
        assert(pv[j as int] == plans@[j as int]@);
        assert(pv[index as int] == plans@[index as int]@);
        if parts_equal(plans[j].destination_path.as_slice(), plans[index].destination_path.as_slice()) {
            earlier = true;
        }
        j = j + 1;
    }
    if target_exists || earlier {
        match strategy {
            BatchMoveConflictStrategy::Fail => return Err(FileError::AlreadyExists),
            BatchMoveConflictStrategy::Skip => {
                let mut plan = plans.remove(index);
                plan.conflict = true;
                plans.insert(index, plan);
                assert(plans_view(plans@) =~= pv.update(
                    index as int,
                    PlanView { conflict: true, ..pv[index as int] },
                ));
            },
        }
    }
    Ok(())
}

/// A destination found taken just before its move: skipped, or the end of
/// the batch.
pub fn mark_late_conflict(
    plans: &mut Vec<BatchMovePlan>,
    index: usize,
    strategy: BatchMoveConflictStrategy,
) -> (r: Result<(), FileError>)
    requires
        index < old(plans)@.len(),
    ensures
        strategy == BatchMoveConflictStrategy::Fail ==> r == Err::<(), FileError>(
            FileError::AlreadyExists,
        ) && plans_view(final(plans)@) == plans_view(old(plans)@),
        strategy == BatchMoveConflictStrategy::Skip ==> r is Ok && plans_view(final(plans)@)
            == plans_view(old(plans)@).update(
            index as int,
            PlanView { conflict: true, ..plans_view(old(plans)@)[index as int] },
        ),
{
    match strategy {
        BatchMoveConflictStrategy::Fail => Err(FileError::AlreadyExists),
        BatchMoveConflictStrategy::Skip => {
            let ghost pv = plans_view(plans@);
            let mut plan = plans.remove(index);
            plan.conflict = true;
            plans.insert(index, plan);
            assert(plans_view(plans@) =~= pv.update(
                index as int,
                PlanView { conflict: true, ..pv[index as int] },
            ));
            Ok(())
        },
    }
}

/// What happened to one entry of a batch move.
#[derive(Debug, PartialEq, Eq)]
pub struct BatchMoveItemResult {
    pub previous_relative_path: String,
    pub relative_path: String,
    pub kind: DirectorySearchKind,
    pub status: BatchMoveItemStatus,
    pub target_reference_id: Option<String>,
    pub error_code: Option<&'static str>,
}

/// What the agent learns of a batch move.
#[derive(Debug, PartialEq, Eq)]
pub struct BatchMoveResult {
    pub items: Vec<BatchMoveItemResult>,
    pub moved: usize,
    pub skipped: usize,
}

/// The number of plans that were carried out.
pub open spec fn moved_count(plans: Seq<PlanView>) -> nat
    decreases plans.len(),
{
    if plans.len() == 0 {
        0
    } else {
        moved_count(plans.drop_last()) + if plans.last().conflict {
            0nat
        } else {
            1nat
        }
    }
}

/// A batch without conflicts moves every entry.
pub proof fn lemma_no_conflict_moves_all(plans: Seq<PlanView>)
    requires
        forall|i: int| 0 <= i < plans.len() ==> !(#[trigger] plans[i]).conflict,
    ensures
        moved_count(plans) == plans.len(),
    decreases plans.len(),
{
    if plans.len() > 0 {
        assert(!plans[plans.len() - 1].conflict);
        lemma_no_conflict_moves_all(plans.drop_last());
    }
}

/// The id that item `i` of a batch was recorded under, as text.
pub open spec fn item_id(items: Seq<BatchMoveItemResult>, i: int) -> Seq<char> {
    items[i].target_reference_id->Some_0@
}

/// No two moved entries of a batch that land at different places were given
/// the same fresh id.
pub open spec fn distinct_batch_ids(plans: Seq<PlanView>, items: Seq<BatchMoveItemResult>) -> bool {
    forall|i: int, j: int|
        #![trigger item_id(items, i), item_id(items, j)]
        0 <= i < plans.len() && 0 <= j < plans.len() && !plans[i].conflict && !plans[j].conflict
            && plans[i].destination_relative_path != plans[j].destination_relative_path
            ==> item_id(items, i) != item_id(items, j)
}

/// No record lies in the tree of a source among the first `m` plans that
/// were carried out.
pub open spec fn none_in_moved_sources(
    records: Seq<EntryView>,
    dir: Seq<char>,
    plans: Seq<PlanView>,
    m: int,
) -> bool {
    forall|x: EntryView, q: int|
        #![trigger records.contains(x), plans[q]]
        records.contains(x) && 0 <= q < m && !plans[q].conflict ==> !in_tree(
            x,
            dir,
            Some(plans[q].source.relative_path),
        )
}

/// Every record in the tree of a moved source sits where one of the first
/// `m` carried-out plans put an entry.
pub open spec fn sources_forgotten(
    records: Seq<EntryView>,
    dir: Seq<char>,
    plans: Seq<PlanView>,
    m: int,
) -> bool {
    forall|x: EntryView, q: int|
        #![trigger records.contains(x), plans[q]]
        records.contains(x) && 0 <= q < plans.len() && !plans[q].conflict && in_tree(
            x,
            dir,
            Some(plans[q].source.relative_path),
        ) ==> exists|j: int|
            0 <= j < m && !(#[trigger] plans[j]).conflict && x.relative_path
                == plans[j].destination_relative_path
}

/// Each of the first `m` carried-out plans has its id recorded at its
/// destination, unless a later one of them got the same id for another
/// place.
pub open spec fn moved_registered(
    records: Seq<EntryView>,
    dir: Seq<char>,
    plans: Seq<PlanView>,
    items: Seq<BatchMoveItemResult>,
    m: int,
) -> bool {
    forall|j: int|
        0 <= j < m && !(#[trigger] plans[j]).conflict ==> has_entry(
            records,
            item_id(items, j),
            dir,
            plans[j].destination_relative_path,
        ) || exists|l: int|
            j < l < m && !plans[l].conflict && plans[l].destination_relative_path
                != plans[j].destination_relative_path && #[trigger] item_id(items, l) == item_id(
                items,
                j,
            )
}

/// The records after the sources of the carried-out plans, and everything
/// below them, are forgotten, plan by plan.
pub open spec fn forget_moved(s: Seq<EntryView>, dir: Seq<char>, plans: Seq<PlanView>) -> Seq<
    EntryView,
>
    decreases plans.len(),
{
    if plans.len() == 0 {
        s
    } else {
        let prev = forget_moved(s, dir, plans.drop_last());
        if plans.last().conflict {
            prev
        } else {
            kept(prev, outside(dir, Some(plans.last().source.relative_path)))
        }
    }
}

/// The records after the destination of each carried-out plan is recorded
/// under the id its item names, plan by plan.
pub open spec fn register_moved(
    s: Seq<EntryView>,
    d: DirectoryView,
    plans: Seq<PlanView>,
    items: Seq<BatchMoveItemResult>,
) -> Seq<EntryView>
    decreases plans.len(),
{
    if plans.len() == 0 {
        s
    } else {
        let prev = register_moved(s, d, plans.drop_last(), items);
        let p = plans.last();
        if p.conflict {
            prev
        } else {
            after_register(
                prev,
                shown_entry(
                    d,
                    item_id(items, plans.len() - 1),
                    p.destination_path,
                    p.destination_name,
                    p.destination_relative_path,
                ),
            )
        }
    }
}

proof fn lemma_register_moved_prefix(
    s: Seq<EntryView>,
    d: DirectoryView,
    plans: Seq<PlanView>,
    a: Seq<BatchMoveItemResult>,
    b: Seq<BatchMoveItemResult>,
)
    requires
        forall|j: int| 0 <= j < plans.len() ==> #[trigger] item_id(a, j) == item_id(b, j),
    ensures
        register_moved(s, d, plans, a) == register_moved(s, d, plans, b),
    decreases plans.len(),
{
    if plans.len() > 0 {
        lemma_register_moved_prefix(s, d, plans.drop_last(), a, b);
        assert(item_id(a, plans.len() - 1) == item_id(b, plans.len() - 1));
    }
}

/// Forgetting the moved sources keeps every record that lies outside all
/// of their trees.
pub proof fn lemma_forget_moved_keeps(
    s: Seq<EntryView>,
    dir: Seq<char>,
    plans: Seq<PlanView>,
    x: EntryView,
)
    requires
        s.contains(x),
        forall|q: int|
            0 <= q < plans.len() && !(#[trigger] plans[q]).conflict ==> !in_tree(
                x,
                dir,
                Some(plans[q].source.relative_path),
            ),
    ensures
        forget_moved(s, dir, plans).contains(x),
    decreases plans.len(),
{
    if plans.len() > 0 {
        let init = plans.drop_last();
        assert forall|q: int|
            0 <= q < init.len() && !(#[trigger] init[q]).conflict implies !in_tree(
                x,
                dir,
                Some(init[q].source.relative_path),
            ) by {
            assert(init[q] == plans[q]);
        }
        lemma_forget_moved_keeps(s, dir, init, x);
        if !plans.last().conflict {
            assert(plans[plans.len() - 1] == plans.last());
            lemma_kept_contains(
                forget_moved(s, dir, init),
                outside(dir, Some(plans.last().source.relative_path)),
                x,
            );
        }
    }
}

/// Recording the destinations keeps every record whose id none of the
/// moved entries was given.
pub proof fn lemma_register_moved_keeps(
    s: Seq<EntryView>,
    d: DirectoryView,
    plans: Seq<PlanView>,
    items: Seq<BatchMoveItemResult>,
    x: EntryView,
)
    requires
        s.contains(x),
        forall|j: int|
            0 <= j < plans.len() && !(#[trigger] plans[j]).conflict ==> x.reference_id != item_id(
                items,
                j,
            ),
    ensures
        register_moved(s, d, plans, items).contains(x),
    decreases plans.len(),
{
    if plans.len() > 0 {
        let init = plans.drop_last();
        assert forall|j: int|
            0 <= j < init.len() && !(#[trigger] init[j]).conflict implies x.reference_id != item_id(
                items,
                j,
            ) by {
            assert(init[j] == plans[j]);
        }
        lemma_register_moved_keeps(s, d, init, items, x);
        let p = plans.last();
        if !p.conflict {
            assert(plans[plans.len() - 1] == p);
            lemma_after_register_contains(
                register_moved(s, d, init, items),
                shown_entry(
                    d,
                    item_id(items, plans.len() - 1),
                    p.destination_path,
                    p.destination_name,
                    p.destination_relative_path,
                ),
                x,
            );
        }
    }
}

impl AuthorizedDirectory {
    /// Records the outcome of a batch: the moved sources are forgotten and
    /// their destinations recorded; every plan yields one item, moved or
    /// skipped, in the order of the requests.
    pub fn finish_batch_move(&self, entries: &mut EntryRegistry, plans: Vec<BatchMovePlan>) -> (r:
        BatchMoveResult)
        requires
            old(entries).wf(),
        ensures
            final(entries).wf(),
            r.items@.len() == plans@.len(),
            r.moved == moved_count(plans_view(plans@)),
            r.moved + r.skipped == r.items@.len(),
            forall|i: int|
                0 <= i < plans@.len() ==> {
                    let plan = #[trigger] plans_view(plans@)[i];
                    let item = r.items@[i];
                    &&& item.previous_relative_path@ == plan.source.relative_path
                    &&& item.relative_path@ == plan.destination_relative_path
                    &&& item.kind == kind_of(plan.source_is_dir)
                    &&& item.status == (if plan.conflict {
                        BatchMoveItemStatus::Skipped
                    } else {
                        BatchMoveItemStatus::Moved
                    })
                    &&& (item.target_reference_id is Some <==> !plan.conflict)
                    &&& plan.conflict ==> (item.error_code matches Some(code) && code@
                        == file_error_code(FileError::AlreadyExists))
                    &&& !plan.conflict ==> item.error_code is None
                },
            sources_forgotten(
                final(entries).records(),
                self@.reference_id,
                plans_view(plans@),
                plans@.len() as int,
            ),
            final(entries).records() == register_moved(
                forget_moved(old(entries).records(), self@.reference_id, plans_view(plans@)),
                self@,
                plans_view(plans@),
                r.items@,
            ),
            forall|x: EntryView|
                #[trigger] old(entries).records().contains(x) && (forall|q: int|
                    0 <= q < plans@.len() && !(#[trigger] plans_view(plans@)[q]).conflict
                        ==> !in_tree(
                        x,
                        self@.reference_id,
                        Some(plans_view(plans@)[q].source.relative_path),
                    )) && (forall|j: int|
                    0 <= j < plans@.len() && !(#[trigger] plans_view(plans@)[j]).conflict
                        ==> x.reference_id != item_id(r.items@, j))
                    ==> final(entries).records().contains(x),
            distinct_batch_ids(plans_view(plans@), r.items@) ==> forall|i: int|
                0 <= i < plans@.len() && !(#[trigger] plans_view(plans@)[i]).conflict ==> has_entry(
                    final(entries).records(),
                    item_id(r.items@, i),
                    self@.reference_id,
                    plans_view(plans@)[i].destination_relative_path,
                ),
    {
        let ghost pv = plans_view(plans@);
        let ghost dir = self@.reference_id;
        let ghost old_records = entries.records();
        let n = plans.len();
        assert(pv.take(0) =~= Seq::<PlanView>::empty());
        let mut i: usize = 0;
        while i < n
            invariant
                n == plans@.len(),
                pv == plans_view(plans@),
                dir == self@.reference_id,
                i <= n,
                entries.wf(),
                none_in_moved_sources(entries.records(), dir, pv, i as int),
                entries.records() == forget_moved(old_records, dir, pv.take(i as int)),
            decreases n - i,
        {
            let ghost prev = entries.records();
            assert(pv.take(i + 1).drop_last() =~= pv.take(i as int));
            assert(pv.take(i + 1).last() == pv[i as int]);
            if !plans[i].conflict {
                self.invalidate_entry_tree(entries, plans[i].source.relative_path.as_str());
                proof {
                    let keep = outside(dir, Some(pv[i as int].source.relative_path));
                    assert forall|x: EntryView, q: int|
                        #![trigger entries.records().contains(x), pv[q]]
                        entries.records().contains(x) && 0 <= q < i + 1 && !pv[q].conflict
                            implies !in_tree(x, dir, Some(pv[q].source.relative_path)) by {
                        lemma_kept_contains(prev, keep, x);
                    }
                }
            } else {
                assert forall|x: EntryView, q: int|
                    #![trigger entries.records().contains(x), pv[q]]
                    entries.records().contains(x) && 0 <= q < i + 1 && !pv[q].conflict
                        implies !in_tree(x, dir, Some(pv[q].source.relative_path)) by {
                    if q < i {
                    }
                }
            }
            i = i + 1;
        }
        assert(pv.take(n as int) =~= pv);
        let ghost mid = entries.records();
        let mut items: Vec<BatchMoveItemResult> = Vec::new();
        proof {
            let recs = entries.records();
            assert forall|x: EntryView, q: int|
                #![trigger recs.contains(x), pv[q]]
                recs.contains(x) && 0 <= q < pv.len() && !pv[q].conflict && in_tree(
                    x,
                    dir,
                    Some(pv[q].source.relative_path),
                ) implies exists|j: int|
                0 <= j < 0 && !(#[trigger] pv[j]).conflict && x.relative_path
                    == pv[j].destination_relative_path by {
                assert(!in_tree(x, dir, Some(pv[q].source.relative_path)));
            }
        }
        let mut moved: usize = 0;
        let mut rest = plans;
        let mut k: usize = 0;
        proof {
            assert(pv.take(0) =~= Seq::<PlanView>::empty());
        }
        while k < n
            invariant
                n == pv.len(),
                k <= n,
                rest@.len() == n - k,
                forall|j: int| 0 <= j < n - k ==> (#[trigger] rest@[j])@ == pv[k + j],
                items@.len() == k,
                moved == moved_count(pv.take(k as int)),
                moved <= k,
                entries.wf(),
                dir == self@.reference_id,
                sources_forgotten(entries.records(), dir, pv, k as int),
                moved_registered(entries.records(), dir, pv, items@, k as int),
                entries.records() == register_moved(mid, self@, pv.take(k as int), items@),
                mid == forget_moved(old_records, dir, pv),
                forall|j: int| 0 <= j < k ==> (items@[j].target_reference_id is Some <==> !pv[j].conflict),
                forall|j: int|
                    0 <= j < k ==> {
                        let plan = #[trigger] pv[j];
                        let item = items@[j];
                        &&& item.previous_relative_path@ == plan.source.relative_path
                        &&& item.relative_path@ == plan.destination_relative_path
                        &&& item.kind == kind_of(plan.source_is_dir)
                        &&& item.status == (if plan.conflict {
                            BatchMoveItemStatus::Skipped
                        } else {
                            BatchMoveItemStatus::Moved
                        })
                        &&& (item.target_reference_id is Some <==> !plan.conflict)
                        &&& plan.conflict ==> (item.error_code matches Some(code) && code@
                            == file_error_code(FileError::AlreadyExists))
                        &&& !plan.conflict ==> item.error_code is None
                    },
            decreases n - k,
        {
            assert(rest@[0]@ == pv[k + 0]);
            let ghost before = rest@;
            let plan = rest.remove(0);
            assert(plan@ == pv[k as int]);
            assert forall|j: int| 0 <= j < n - (k + 1) implies (#[trigger] rest@[j])@ == pv[(k + 1)
                + j] by {
                assert(rest@[j] == before[j + 1]);
                assert(before[j + 1]@ == pv[k + (j + 1)]);
            }
            assert(pv.take(k + 1).drop_last() =~= pv.take(k as int));
            assert(pv.take(k + 1).last() == pv[k as int]);
            let kind = if plan.source_is_dir {
                DirectorySearchKind::Directory
            } else {
                DirectorySearchKind::File
            };
            let ghost prev = entries.records();
            let ghost items_before = items@;
            let ghost pk = pv[k as int];
            if plan.conflict {
                items.push(
                    BatchMoveItemResult {
                        previous_relative_path: plan.source.relative_path,
                        relative_path: plan.destination_relative_path,
                        kind,
                        status: BatchMoveItemStatus::Skipped,
                        target_reference_id: None,
                        error_code: Some(FileError::AlreadyExists.code()),
                    },
                );
                proof {
                    assert forall|j: int| 0 <= j < k implies items@[j] == items_before[j] by {}
                    assert forall|j: int| 0 <= j < k implies #[trigger] item_id(items@, j) == item_id(
                        items_before,
                        j,
                    ) by {
                        assert(items@[j] == items_before[j]);
                    }
                    assert(pv.take(k + 1).drop_last() =~= pv.take(k as int));
                    assert(pv.take(k + 1).last() == pk);
                    lemma_register_moved_prefix(mid, self@, pv.take(k as int), items@, items_before);
                    let recs = entries.records();
                    assert forall|x: EntryView, q: int|
                        #![trigger recs.contains(x), pv[q]]
                        recs.contains(x) && 0 <= q < pv.len() && !pv[q].conflict && in_tree(
                            x,
                            dir,
                            Some(pv[q].source.relative_path),
                        ) implies exists|j: int|
                        0 <= j < k + 1 && !(#[trigger] pv[j]).conflict && x.relative_path
                            == pv[j].destination_relative_path by {
                        let j = choose|j: int|
                            0 <= j < k && !(#[trigger] pv[j]).conflict && x.relative_path
                                == pv[j].destination_relative_path;
                        assert(0 <= j < k + 1 && !pv[j].conflict);
                    }
                    assert forall|j: int|
                        0 <= j < k + 1 && !(#[trigger] pv[j]).conflict implies has_entry(
                            recs,
                            item_id(items@, j),
                            dir,
                            pv[j].destination_relative_path,
                        ) || exists|l: int|
                            j < l < k + 1 && !pv[l].conflict && pv[l].destination_relative_path
                                != pv[j].destination_relative_path && #[trigger] item_id(items@, l)
                                == item_id(items@, j) by {
                        assert(j < k);
                        assert(item_id(items@, j) == item_id(items_before, j));
                        if !has_entry(recs, item_id(items@, j), dir, pv[j].destination_relative_path) {
                            let l = choose|l: int|
                                j < l < k && !pv[l].conflict && pv[l].destination_relative_path
                                    != pv[j].destination_relative_path && #[trigger] item_id(
                                    items_before,
                                    l,
                                ) == item_id(items_before, j);
                            assert(item_id(items@, l) == item_id(items_before, l));
                        }
                    }
                }
            } else {
                let shown = plan.destination_relative_path.clone();
                let ghost dpath = parts_view(plan.destination_path@);
                let ghost dname = plan.destination_name@;
                let id = self.register_shown_entry(
                    entries,
                    plan.destination_path,
                    shown,
                    plan.destination_name,
                );
                let ghost e = shown_entry(self@, id@, dpath, dname, pk.destination_relative_path);
                items.push(
                    BatchMoveItemResult {
                        previous_relative_path: plan.source.relative_path,
                        relative_path: plan.destination_relative_path,
                        kind,
                        status: BatchMoveItemStatus::Moved,
                        target_reference_id: Some(id),
                        error_code: None,
                    },
                );
                proof {
                    assert forall|j: int| 0 <= j < k implies items@[j] == items_before[j] by {}
                    assert forall|j: int| 0 <= j < k implies #[trigger] item_id(items@, j) == item_id(
                        items_before,
                        j,
                    ) by {
                        assert(items@[j] == items_before[j]);
                    }
                    assert(pv.take(k + 1).drop_last() =~= pv.take(k as int));
                    assert(pv.take(k + 1).last() == pk);
                    lemma_register_moved_prefix(mid, self@, pv.take(k as int), items@, items_before);
                    assert(item_id(items@, k as int) == id@);
                    let recs = entries.records();
                    assert(recs == after_register(prev, e));
                    assert forall|x: EntryView, q: int|
                        #![trigger recs.contains(x), pv[q]]
                        recs.contains(x) && 0 <= q < pv.len() && !pv[q].conflict && in_tree(
                            x,
                            dir,
                            Some(pv[q].source.relative_path),
                        ) implies exists|j: int|
                        0 <= j < k + 1 && !(#[trigger] pv[j]).conflict && x.relative_path
                            == pv[j].destination_relative_path by {
                        lemma_after_register_contains(prev, e, x);
                        if prev.contains(x) {
                            let j = choose|j: int|
                                0 <= j < k && !(#[trigger] pv[j]).conflict && x.relative_path
                                    == pv[j].destination_relative_path;
                            assert(0 <= j < k + 1 && !pv[j].conflict);
                        } else {
                            assert(x == e);
                            assert(!pv[k as int].conflict);
                        }
                    }
                    assert forall|j: int|
                        0 <= j < k + 1 && !(#[trigger] pv[j]).conflict implies has_entry(
                            recs,
                            item_id(items@, j),
                            dir,
                            pv[j].destination_relative_path,
                        ) || exists|l: int|
                            j < l < k + 1 && !pv[l].conflict && pv[l].destination_relative_path
                                != pv[j].destination_relative_path && #[trigger] item_id(items@, l)
                                == item_id(items@, j) by {
                        if j < k {
                            assert(item_id(items@, j) == item_id(items_before, j));
                            if has_entry(prev, item_id(items_before, j), dir, pv[j].destination_relative_path) {
                                let w = choose|w: int|
                                    0 <= w < prev.len() && (#[trigger] prev[w]).reference_id
                                        == item_id(items_before, j) && prev[w].directory_reference_id
                                        == dir && prev[w].relative_path == pv[j].destination_relative_path;
                                let rec = prev[w];
                                assert(prev.contains(rec));
                                if rec.reference_id != id@ {
                                    lemma_after_register_contains(prev, e, rec);
                                    let v = choose|v: int| 0 <= v < recs.len() && recs[v] == rec;
                                    assert(recs[v].reference_id == item_id(items@, j));
                                } else if pv[j].destination_relative_path
                                    == pk.destination_relative_path {
                                    assert(placed(prev, dir, pk.destination_relative_path));
                                    assert(recs == prev);
                                } else {
                                    assert(item_id(items@, k as int) == item_id(items@, j));
                                }
                            } else {
                                let l = choose|l: int|
                                    j < l < k && !pv[l].conflict && pv[l].destination_relative_path
                                        != pv[j].destination_relative_path && #[trigger] item_id(
                                        items_before,
                                        l,
                                    ) == item_id(items_before, j);
                                assert(item_id(items@, l) == item_id(items_before, l));
                            }
                        }
                    }
                }
                moved = moved + 1;
            }
            k = k + 1;
        }
        assert(pv.take(n as int) =~= pv);
        proof {
            assert(pv.take(n as int) =~= pv);
            assert forall|x: EntryView|
                #[trigger] old_records.contains(x) && (forall|q: int|
                    0 <= q < n && !(#[trigger] pv[q]).conflict ==> !in_tree(
                        x,
                        dir,
                        Some(pv[q].source.relative_path),
                    )) && (forall|j: int|
                    0 <= j < n && !(#[trigger] pv[j]).conflict ==> x.reference_id != item_id(
                        items@,
                        j,
                    )) implies entries.records().contains(x) by {
                lemma_forget_moved_keeps(old_records, dir, pv, x);
                lemma_register_moved_keeps(mid, self@, pv, items@, x);
            }
            if distinct_batch_ids(pv, items@) {
                assert forall|i: int| 0 <= i < n && !(#[trigger] pv[i]).conflict implies has_entry(
                    entries.records(),
                    item_id(items@, i),
                    dir,
                    pv[i].destination_relative_path,
                ) by {
                    if !has_entry(entries.records(), item_id(items@, i), dir, pv[i].destination_relative_path) {
                        let l = choose|l: int|
                            i < l < n && !pv[l].conflict && pv[l].destination_relative_path
                                != pv[i].destination_relative_path && #[trigger] item_id(items@, l)
                                == item_id(items@, i);
                        assert(item_id(items@, i) != item_id(items@, l));
                    }
                }
            }
        }
        BatchMoveResult { skipped: n - moved, moved, items }
    }
}

/// What a failed copy leaves behind to remove.
#[derive(Debug, Clone, Copy, PartialEq, Eq, Structural)]
pub enum CopyCleanupKind {
    File,
    Directory,
}

/// The destination of a copy under way, removed again unless the copy is
/// finished.
pub struct CopyCleanup {
    pub path: Vec<PathPart>,
    pub kind: CopyCleanupKind,
    pub armed: bool,
}

impl CopyCleanup {
    pub fn new(path: Vec<PathPart>, kind: CopyCleanupKind) -> (r: Self)
        ensures
            parts_view(r.path@) == parts_view(path@),
            r.kind == kind,
            r.armed,
    {
        CopyCleanup { path, kind, armed: true }
    }

    /// The copy is finished: nothing is removed.
    pub fn disarm(&mut self)
        ensures
            !final(self).armed,
            parts_view(final(self).path@) == parts_view(old(self).path@),
            final(self).kind == old(self).kind,
    {
        self.armed = false;
    }
}

/// The moves of a batch so far, undone in reverse order unless the batch
/// finishes.
pub struct MoveRollback {
    moves: Vec<(Vec<PathPart>, Vec<PathPart>)>,
    armed: bool,
}

pub open spec fn moves_view(moves: Seq<(Vec<PathPart>, Vec<PathPart>)>) -> Seq<
    (Seq<PartView>, Seq<PartView>),
> {
    moves.map_values(|m: (Vec<PathPart>, Vec<PathPart>)| (parts_view(m.0@), parts_view(m.1@)))
}

impl MoveRollback {
    pub closed spec fn moves(&self) -> Seq<(Seq<PartView>, Seq<PartView>)> {
        moves_view(self.moves@)
    }

    pub closed spec fn is_armed(&self) -> bool {
        self.armed
    }

    pub fn new() -> (r: Self)
        ensures
            r.moves().len() == 0,
            !r.is_armed(),
    {
        let r = MoveRollback { moves: Vec::new(), armed: false };
        assert(r.moves() =~= Seq::<(Seq<PartView>, Seq<PartView>)>::empty());
        r
    }

    /// Remembers a move from `source` to `destination`.
    pub fn push(&mut self, source: Vec<PathPart>, destination: Vec<PathPart>)
        ensures
            final(self).is_armed(),
            final(self).moves() == old(self).moves().push(
                (parts_view(source@), parts_view(destination@)),
            ),
    {
        let ghost before = self.moves();
        let ghost m = (parts_view(source@), parts_view(destination@));
        self.armed = true;
        self.moves.push((source, destination));
        assert(self.moves() =~= before.push(m));
    }

    /// The batch finished: nothing is undone.
    pub fn disarm(&mut self)
        ensures
            !final(self).is_armed(),
            final(self).moves() == old(self).moves(),
    {
        self.armed = false;
    }

    /// The renames that undo the batch, latest first, each from the
    /// destination back to the source; none once disarmed.
    pub fn undo_steps(self) -> (r: Vec<(Vec<PathPart>, Vec<PathPart>)>)
        ensures
            !self.is_armed() ==> r@.len() == 0,
            self.is_armed() ==> r@.len() == self.moves().len(),
            self.is_armed() ==> forall|i: int|
                0 <= i < r@.len() ==> {
                    let m = self.moves()[self.moves().len() - 1 - i];
                    &&& parts_view((#[trigger] r@[i]).0@) == m.1
                    &&& parts_view(r@[i].1@) == m.0
                },
    {
        if !self.armed {
            return Vec::new();
        }
        let ghost all = self.moves();
        let mut rest = self.moves;
        let mut steps: Vec<(Vec<PathPart>, Vec<PathPart>)> = Vec::new();
        while rest.len() > 0
            invariant
                moves_view(rest@) == all.take(rest@.len() as int),
                rest@.len() <= all.len(),
                steps@.len() == all.len() - rest@.len(),
                forall|i: int|
                    0 <= i < steps@.len() ==> {
                        let m = all[all.len() - 1 - i];
                        &&& parts_view((#[trigger] steps@[i]).0@) == m.1
                        &&& parts_view(steps@[i].1@) == m.0
                    },
            decreases rest@.len(),
        {
            let ghost k = rest@.len();
            let (source, destination) = rest.pop().unwrap();
            assert(parts_view(source@) == all[k - 1].0 && parts_view(destination@) == all[k - 1].1)
                by {
                assert(moves_view(rest@.push((source, destination)))[k - 1] == all.take(k as int)[k
                    - 1]);
            }
            assert(moves_view(rest@) =~= all.take(k - 1));
            steps.push((destination, source));
        }
        steps
    }
}

} // verus!
