//! Directories and files the user authorized, and the checks that an entry
//! or a file is still what was authorized.

use vstd::prelude::*;
use vstd::utf8::decode_utf8;

use crate::errors::FileError;
use crate::files::registry::{
    after_register, copy_parts, has_entry, kept, outside, placed, DirectoryEntryRecord,
    EntryRegistry, EntryView,
};
use crate::files::{
    content_digest_of, decode_text, decoded_text, digest, DirectorySearchKind,
    MAX_SELECTED_FILE_BYTES,
};
use crate::paths::{
    display_path, display_relative_path, file_extension, name_extension, parts_equal,
    parts_prefix, parts_start_with, parts_view, PartView, PathPart,
};
use crate::protocol::file::{DirectoryReference, Reference};
use crate::text::{chars_of, lowercase_of, str_eq, to_lowercase, trim, trim_chars};

verus! {

/// What `symlink_metadata` says an entry is.
#[derive(Debug, Clone, Copy, PartialEq, Eq, Structural)]
pub enum FsKind {
    File,
    Directory,
    Symlink,
    Other,
}

/// The metadata of a directory entry reported to the agent.
#[derive(Debug, PartialEq, Eq)]
pub struct DirectoryEntryMetadata {
    pub target_reference_id: String,
    pub name: String,
    pub relative_path: String,
    pub kind: DirectorySearchKind,
    pub size: Option<u64>,
    pub modified_at: Option<String>,
    pub extension: Option<String>,
}

/// What the agent learns of an entry moved to the trash.
#[derive(Debug, PartialEq, Eq)]
pub struct DirectoryTrashResult {
    pub name: String,
    pub relative_path: String,
    pub kind: DirectorySearchKind,
}

pub open spec fn kind_of(is_dir: bool) -> DirectorySearchKind {
    if is_dir {
        DirectorySearchKind::Directory
    } else {
        DirectorySearchKind::File
    }
}

/// The lower-cased extension of a file name.
pub open spec fn lower_extension(name: Seq<char>) -> Option<Seq<char>> {
    match name_extension(name) {
        Some(ext) => Some(lowercase_of(ext)),
        None => None,
    }
}

pub fn lower_extension_of(name: &str) -> (r: Option<String>)
    ensures
        r matches Some(ext) ==> lower_extension(name@) == Some(ext@),
        r is None ==> lower_extension(name@) is None,
{
    match file_extension(name) {
        Some(ext) => Some(to_lowercase(ext.as_str())),
        None => None,
    }
}

/// The last component of a path, when it is a normal one
/// (`Path::file_name`).
pub open spec fn last_normal(parts: Seq<PartView>) -> Option<Seq<char>> {
    if parts.len() > 0 {
        match parts.last() {
            PartView::Normal(name) => Some(name),
            _ => None,
        }
    } else {
        None
    }
}

pub fn file_name_of(parts: &[PathPart]) -> (r: Option<String>)
    ensures
        r matches Some(name) ==> last_normal(parts_view(parts@)) == Some(name@),
        r is None ==> last_normal(parts_view(parts@)) is None,
{
    if parts.len() == 0 {
        return None;
    }
    let ghost pv = parts_view(parts@);
    assert(pv.last() == parts@[parts@.len() - 1]@);
    match &parts[parts.len() - 1] {
        PathPart::Normal(name) => Some(name.clone()),
        _ => None,
    }
}

/// The name under which a selected file or directory is shown: its last
/// normal component, unless that is blank.
pub open spec fn shown_name(parts: Seq<PartView>) -> Option<Seq<char>> {
    match last_normal(parts) {
        Some(name) => if trim(name).len() == 0 {
            None
        } else {
            Some(name)
        },
        None => None,
    }
}

fn shown_name_of(parts: &[PathPart]) -> (r: Result<String, FileError>)
    ensures
        r matches Ok(name) ==> shown_name(parts_view(parts@)) == Some(name@),
        r is Err ==> shown_name(parts_view(parts@)) is None && r == Err::<String, FileError>(
            FileError::InvalidName,
        ),
{
    match file_name_of(parts) {
        Some(name) => {
            let cs = chars_of(name.as_str());
            let trimmed = trim_chars(cs.as_slice());
            if trimmed.len() == 0 {
                Err(FileError::InvalidName)
            } else {
                Ok(name)
            }
        },
        None => Err(FileError::InvalidName),
    }
}

/// `Path::parent` is `None`: the path is empty or ends at the root.
pub open spec fn without_parent(parts: Seq<PartView>) -> bool {
    parts.len() == 0 || parts.last() is Root
}

/// The record of an entry of directory `d` shown at `relative_path` under
/// the id `id`.
pub open spec fn shown_entry(
    d: DirectoryView,
    id: Seq<char>,
    selected_path: Seq<PartView>,
    name: Seq<char>,
    relative_path: Seq<char>,
) -> EntryView {
    EntryView {
        reference_id: id,
        directory_reference_id: d.reference_id,
        selected_root: d.selected_path,
        canonical_root: d.canonical_path,
        selected_path,
        name,
        relative_path,
    }
}

/// A directory the user authorized for the agent.
pub struct AuthorizedDirectory {
    reference: DirectoryReference,
    selected_path: Vec<PathPart>,
    canonical_path: Vec<PathPart>,
}

pub struct DirectoryView {
    pub reference_id: Seq<char>,
    pub name: Seq<char>,
    pub selected_path: Seq<PartView>,
    pub canonical_path: Seq<PartView>,
}

impl View for AuthorizedDirectory {
    type V = DirectoryView;

    closed spec fn view(&self) -> DirectoryView {
        DirectoryView {
            reference_id: self.reference.reference_id@,
            name: self.reference.name@,
            selected_path: parts_view(self.selected_path@),
            canonical_path: parts_view(self.canonical_path@),
        }
    }
}

impl AuthorizedDirectory {
    pub fn reference(&self) -> (r: &DirectoryReference)
        ensures
            r.reference_id@ == self@.reference_id,
            r.name@ == self@.name,
    {
        &self.reference
    }

    pub fn selected_path(&self) -> (r: &[PathPart])
        ensures
            parts_view(r@) == self@.selected_path,
    {
        self.selected_path.as_slice()
    }

    pub fn canonical_path(&self) -> (r: &[PathPart])
        ensures
            parts_view(r@) == self@.canonical_path,
    {
        self.canonical_path.as_slice()
    }

    /// The root still resolves to the path that was authorized.
    pub fn check_root(&self, canonical_now: &[PathPart]) -> (r: Result<(), FileError>)
        ensures
            r is Ok <==> parts_view(canonical_now@) == self@.canonical_path,
            r is Err ==> r == Err::<(), FileError>(FileError::Changed),
    {
        if parts_equal(canonical_now, self.canonical_path.as_slice()) {
            Ok(())
        } else {
            Err(FileError::Changed)
        }
    }

    /// The reference id of the entry at `relative_path`, recorded under
    /// this directory.
    pub fn register_entry(
        &self,
        entries: &mut EntryRegistry,
        selected_path: Vec<PathPart>,
        relative_path: &str,
        name: String,
    ) -> (id: String)
        requires
            old(entries).wf(),
        ensures
            final(entries).wf(),
            has_entry(final(entries).records(), id@, self@.reference_id, display_path(relative_path@)),
            placed(old(entries).records(), self@.reference_id, display_path(relative_path@))
                ==> final(entries).records() == old(entries).records(),
    {
        let shown = display_relative_path(relative_path);
        entries.register(
            self.reference.reference_id.as_str(),
            self.selected_path.as_slice(),
            self.canonical_path.as_slice(),
            selected_path,
            shown,
            name,
        )
    }

    /// The reference id of the entry shown at `shown_relative_path`,
    /// recorded under this directory.
    pub fn register_shown_entry(
        &self,
        entries: &mut EntryRegistry,
        selected_path: Vec<PathPart>,
        shown_relative_path: String,
        name: String,
    ) -> (id: String)
        requires
            old(entries).wf(),
        ensures
            final(entries).wf(),
            has_entry(final(entries).records(), id@, self@.reference_id, shown_relative_path@),
            placed(old(entries).records(), self@.reference_id, shown_relative_path@)
                ==> final(entries).records() == old(entries).records(),
            final(entries).records() == after_register(
                old(entries).records(),
                shown_entry(self@, id@, parts_view(selected_path@), name@, shown_relative_path@),
            ),
    {
        entries.register(
            self.reference.reference_id.as_str(),
            self.selected_path.as_slice(),
            self.canonical_path.as_slice(),
            selected_path,
            shown_relative_path,
            name,
        )
    }

    /// Whether `reference_id` names an entry of this directory at
    /// `relative_path`.
    pub fn validates_entry_reference(
        &self,
        entries: &EntryRegistry,
        reference_id: &str,
        relative_path: &str,
    ) -> (r: bool)
        requires
            entries.wf(),
        ensures
            r == has_entry(entries.records(), reference_id@, self@.reference_id, relative_path@),
    {
        entries.validates(self.reference.reference_id.as_str(), reference_id, relative_path)
    }

    /// The entry of this directory named by `reference_id`.
    pub fn entry(&self, entries: &EntryRegistry, reference_id: &str) -> (r: Result<
        DirectoryEntryRecord,
        FileError,
    >)
        requires
            entries.wf(),
        ensures
            r is Ok <==> exists|i: int|
                0 <= i < entries.records().len() && (#[trigger] entries.records()[i]).reference_id
                    == reference_id@ && entries.records()[i].directory_reference_id
                    == self@.reference_id,
            r matches Ok(e) ==> entries.records().contains(e@) && e@.reference_id == reference_id@
                && e@.directory_reference_id == self@.reference_id,
            r matches Err(e) ==> e == FileError::EntryReferenceInvalid,
    {
        entries.entry(self.reference.reference_id.as_str(), reference_id)
    }

    /// Forgets the entries of this directory at `relative_path` and below.
    pub fn invalidate_entry_tree(&self, entries: &mut EntryRegistry, relative_path: &str)
        requires
            old(entries).wf(),
        ensures
            final(entries).wf(),
            final(entries).records() == kept(
                old(entries).records(),
                outside(self@.reference_id, Some(relative_path@)),
            ),
    {
        entries.forget_tree(self.reference.reference_id.as_str(), Some(relative_path))
    }

    /// Records a text file the agent created at the top of this directory
    /// and describes it.
    pub fn record_created_file(
        &self,
        entries: &mut EntryRegistry,
        file_name: &str,
        content_bytes: u64,
        modified_at: Option<String>,
    ) -> (r: DirectoryEntryMetadata)
        requires
            old(entries).wf(),
        ensures
            final(entries).wf(),
            has_entry(
                final(entries).records(),
                r.target_reference_id@,
                self@.reference_id,
                display_path(file_name@),
            ),
            r.name@ == file_name@,
            r.relative_path@ == file_name@,
            r.kind == DirectorySearchKind::File,
            r.size == Some(content_bytes),
            r.modified_at == modified_at,
            r.extension matches Some(ext) && ext@ == "txt"@,
    {
        let path = self.child_path(file_name);
        let id = self.register_entry(entries, path, file_name, file_name.to_owned());
        DirectoryEntryMetadata {
            target_reference_id: id,
            name: file_name.to_owned(),
            relative_path: file_name.to_owned(),
            kind: DirectorySearchKind::File,
            size: Some(content_bytes),
            modified_at,
            extension: Some("txt".to_owned()),
        }
    }

    /// Records a directory the agent created at the top of this directory
    /// and describes it.
    pub fn record_created_directory(
        &self,
        entries: &mut EntryRegistry,
        directory_name: &str,
        modified_at: Option<String>,
    ) -> (r: DirectoryEntryMetadata)
        requires
            old(entries).wf(),
        ensures
            final(entries).wf(),
            has_entry(
                final(entries).records(),
                r.target_reference_id@,
                self@.reference_id,
                display_path(directory_name@),
            ),
            r.name@ == directory_name@,
            r.relative_path@ == directory_name@,
            r.kind == DirectorySearchKind::Directory,
            r.size is None,
            r.modified_at == modified_at,
            r.extension is None,
    {
        let path = self.child_path(directory_name);
        let id = self.register_entry(entries, path, directory_name, directory_name.to_owned());
        DirectoryEntryMetadata {
            target_reference_id: id,
            name: directory_name.to_owned(),
            relative_path: directory_name.to_owned(),
            kind: DirectorySearchKind::Directory,
            size: None,
            modified_at,
            extension: None,
        }
    }

    /// The path of `name` at the top of this directory.
    pub fn child_path(&self, name: &str) -> (r: Vec<PathPart>)
        ensures
            parts_view(r@) == self@.canonical_path.push(PartView::Normal(name@)),
    {
        let mut path = copy_parts(self.canonical_path.as_slice());
        let ghost before = parts_view(path@);
        path.push(PathPart::Normal(name.to_owned()));
        assert(parts_view(path@) =~= before.push(PartView::Normal(name@)));
        path
    }

    /// Forgets a trashed entry and everything below it, and describes it.
    pub fn record_trashed(
        &self,
        entries: &mut EntryRegistry,
        source: DirectoryEntryRecord,
        is_dir: bool,
    ) -> (r: DirectoryTrashResult)
        requires
            old(entries).wf(),
        ensures
            final(entries).wf(),
            final(entries).records() == kept(
                old(entries).records(),
                outside(self@.reference_id, Some(source@.relative_path)),
            ),
            r.name@ == source@.name,
            r.relative_path@ == source@.relative_path,
            r.kind == kind_of(is_dir),
    {
        self.invalidate_entry_tree(entries, source.relative_path.as_str());
        DirectoryTrashResult {
            name: source.name,
            relative_path: source.relative_path,
            kind: if is_dir {
                DirectorySearchKind::Directory
            } else {
                DirectorySearchKind::File
            },
        }
    }
}

/// The root of a recorded entry still resolves to the path that was
/// authorized.
pub fn check_entry_root(entry: &DirectoryEntryRecord, canonical_root_now: &[PathPart]) -> (r: Result<
    (),
    FileError,
>)
    ensures
        r is Ok <==> parts_view(canonical_root_now@) == entry@.canonical_root,
        r is Err ==> r == Err::<(), FileError>(FileError::Changed),
{
    if parts_equal(canonical_root_now, entry.canonical_root.as_slice()) {
        Ok(())
    } else {
        Err(FileError::Changed)
    }
}

/// The error for an entry of this kind, if it cannot be used.
pub open spec fn entry_kind_error(kind: FsKind) -> Option<FileError> {
    match kind {
        FsKind::Symlink => Some(FileError::Symlink),
        FsKind::Other => Some(FileError::EntryUnsupported),
        _ => None,
    }
}

/// Only regular files and directories, never symbolic links, can be used.
pub fn check_entry_kind(kind: FsKind) -> (r: Result<(), FileError>)
    ensures
        r is Ok <==> entry_kind_error(kind) is None,
        r matches Err(e) ==> entry_kind_error(kind) == Some(e),
{
    match kind {
        FsKind::Symlink => Err(FileError::Symlink),
        FsKind::Other => Err(FileError::EntryUnsupported),
        _ => Ok(()),
    }
}

/// Why a path cannot be attached as a file, if it cannot: a symbolic link,
/// anything but a regular file, or a file over the attachment limit.
pub open spec fn selected_file_error(kind: FsKind, len: u64) -> Option<FileError> {
    if kind == FsKind::Symlink {
        Some(FileError::Symlink)
    } else if kind != FsKind::File {
        Some(FileError::NotRegularFile)
    } else if len > MAX_SELECTED_FILE_BYTES {
        Some(FileError::TooLarge)
    } else {
        None
    }
}

/// Decides from its metadata whether a path can be attached as a file.
pub fn check_selected_file(kind: FsKind, len: u64) -> (r: Result<(), FileError>)
    ensures
        r is Ok <==> selected_file_error(kind, len) is None,
        r matches Err(e) ==> selected_file_error(kind, len) == Some(e),
{
    match kind {
        FsKind::Symlink => Err(FileError::Symlink),
        FsKind::File => {
            if len > MAX_SELECTED_FILE_BYTES {
                Err(FileError::TooLarge)
            } else {
                Ok(())
            }
        },
        _ => Err(FileError::NotRegularFile),
    }
}

/// Decides from its metadata whether a path can be authorized as a
/// directory: a symbolic link or anything but a directory cannot.
pub fn check_selected_directory(kind: FsKind) -> (r: Result<(), FileError>)
    ensures
        kind == FsKind::Directory ==> r is Ok,
        kind == FsKind::Symlink ==> r == Err::<(), FileError>(FileError::Symlink),
        kind != FsKind::Directory && kind != FsKind::Symlink ==> r == Err::<(), FileError>(
            FileError::NotDirectory,
        ),
{
    match kind {
        FsKind::Directory => Ok(()),
        FsKind::Symlink => Err(FileError::Symlink),
        _ => Err(FileError::NotDirectory),
    }
}

/// The system directories that, besides the home directory, must not become
/// the agent's scope.
pub fn sensitive_system_directories() -> (r: Vec<&'static str>)
    ensures
        r@.len() == 4,
        r@[0]@ == "/dev"@,
        r@[1]@ == "/etc"@,
        r@[2]@ == "/proc"@,
        r@[3]@ == "/sys"@,
{
    vec!["/dev", "/etc", "/proc", "/sys"]
}

/// Whether a canonical directory is one that must not become the agent's
/// scope: it equals one of the canonical sensitive locations (the home
/// directory and the system directories, as far as they resolve).
pub fn is_sensitive_scope(canonical: &[PathPart], sensitive: &Vec<Vec<PathPart>>) -> (r: bool)
    ensures
        r <==> exists|i: int|
            0 <= i < sensitive@.len() && parts_view((#[trigger] sensitive@[i])@) == parts_view(
                canonical@,
            ),
{
    let mut i: usize = 0;
    while i < sensitive.len()
        invariant
            i <= sensitive@.len(),
            forall|j: int|
                0 <= j < i ==> parts_view((#[trigger] sensitive@[j])@) != parts_view(canonical@),
        decreases sensitive@.len() - i,
    {
        if parts_equal(sensitive[i].as_slice(), canonical) {
            return true;
        }
        i = i + 1;
    }
    false
}

/// A resolved entry must lie inside the authorized root.
pub fn check_entry_scope(canonical_path: &[PathPart], canonical_root: &[PathPart]) -> (r: Result<
    (),
    FileError,
>)
    ensures
        r is Ok <==> parts_start_with(parts_view(canonical_path@), parts_view(canonical_root@)),
        r is Err ==> r == Err::<(), FileError>(FileError::EntryOutsideScope),
{
    if parts_prefix(canonical_path, canonical_root) {
        Ok(())
    } else {
        Err(FileError::EntryOutsideScope)
    }
}

/// Describes a recorded entry with what the file system says of it.
pub fn entry_metadata(
    entry: &DirectoryEntryRecord,
    is_dir: bool,
    len: u64,
    modified_at: Option<String>,
) -> (r: DirectoryEntryMetadata)
    ensures
        r.target_reference_id@ == entry@.reference_id,
        r.name@ == entry@.name,
        r.relative_path@ == entry@.relative_path,
        r.kind == kind_of(is_dir),
        is_dir ==> r.size is None && r.extension is None,
        !is_dir ==> r.size == Some(len),
        !is_dir ==> (r.extension matches Some(ext) ==> lower_extension(entry@.name) == Some(ext@)),
        !is_dir ==> (r.extension is None ==> lower_extension(entry@.name) is None),
        r.modified_at == modified_at,
{
    let extension = if is_dir {
        None
    } else {
        lower_extension_of(entry.name.as_str())
    };
    DirectoryEntryMetadata {
        target_reference_id: entry.reference_id.clone(),
        name: entry.name.clone(),
        relative_path: entry.relative_path.clone(),
        kind: if is_dir {
            DirectorySearchKind::Directory
        } else {
            DirectorySearchKind::File
        },
        size: if is_dir {
            None
        } else {
            Some(len)
        },
        modified_at,
        extension,
    }
}

/// The directory the user selected last, and the entries shown from it.
pub struct SelectedDirectories {
    pub directories: Vec<AuthorizedDirectory>,
    pub entries: EntryRegistry,
}

/// Whether the only selected scope has this id and name.
pub open spec fn holds_directory(dirs: Seq<DirectoryView>, id: Seq<char>, name: Seq<char>) -> bool {
    dirs.len() == 1 && dirs[0].reference_id == id && dirs[0].name == name
}

/// The error that refuses a directory as a scope, if any.
pub open spec fn directory_scope_error(
    selected_path: Seq<PartView>,
    canonical_path: Seq<PartView>,
    sensitive: bool,
) -> Option<FileError> {
    if without_parent(canonical_path) {
        Some(FileError::DirectoryScopeTooBroad)
    } else if sensitive {
        Some(FileError::DirectoryScopeSensitive)
    } else if shown_name(selected_path) is None {
        Some(FileError::InvalidName)
    } else {
        None
    }
}

impl SelectedDirectories {
    pub open spec fn directories(&self) -> Seq<DirectoryView> {
        self.directories@.map_values(|d: AuthorizedDirectory| d@)
    }

    pub open spec fn wf(&self) -> bool {
        self.entries.wf() && self.directories().len() <= 1
    }

    pub fn new() -> (r: Self)
        ensures
            r.wf(),
            r.directories().len() == 0,
            r.entries.records().len() == 0,
    {
        let r = SelectedDirectories { directories: Vec::new(), entries: EntryRegistry::new() };
        assert(r.directories() =~= Seq::<DirectoryView>::empty());
        r
    }

    /// Authorizes a directory as the one scope of the agent, in place of
    /// any earlier one, whose entries are forgotten. The file system root,
    /// and the home and system directories (`sensitive`), are refused.
    pub fn register(
        &mut self,
        selected_path: Vec<PathPart>,
        canonical_path: Vec<PathPart>,
        sensitive: bool,
    ) -> (r: Result<DirectoryReference, FileError>)
        requires
            old(self).wf(),
        ensures
            final(self).wf(),
            r is Ok <==> directory_scope_error(
                parts_view(selected_path@),
                parts_view(canonical_path@),
                sensitive,
            ) is None,
            r matches Err(e) ==> directory_scope_error(
                parts_view(selected_path@),
                parts_view(canonical_path@),
                sensitive,
            ) == Some(e),
            r is Err ==> final(self).directories() == old(self).directories() && final(self).entries.records() == old(self).entries.records(),
            r matches Ok(reference) ==> {
                &&& shown_name(parts_view(selected_path@)) == Some(reference.name@)
                &&& final(self).directories() == seq![
                    DirectoryView {
                        reference_id: reference.reference_id@,
                        name: reference.name@,
                        selected_path: parts_view(selected_path@),
                        canonical_path: parts_view(canonical_path@),
                    },
                ]
                &&& holds_directory(
                    final(self).directories(),
                    reference.reference_id@,
                    reference.name@,
                )
                &&& final(self).entries.records().len() == 0
                &&& forall|id: Seq<char>, dir: Seq<char>, rel: Seq<char>|
                    !has_entry(#[trigger] final(self).entries.records(), id, dir, rel)
            },
    {
        let ghost cp = parts_view(canonical_path@);
        let broad = canonical_path.len() == 0 || match &canonical_path[canonical_path.len() - 1] {
            PathPart::RootDir => true,
            _ => false,
        };
        proof {
            if canonical_path@.len() > 0 {
                assert(cp.last() == canonical_path@[canonical_path@.len() - 1]@);
            }
        }
        if broad {
            return Err(FileError::DirectoryScopeTooBroad);
        }
        if sensitive {
            return Err(FileError::DirectoryScopeSensitive);
        }
        let name = match shown_name_of(selected_path.as_slice()) {
            Ok(name) => name,
            Err(e) => return Err(e),
        };
        let reference_id = crate::files::registry::new_reference_id();
        let reference = DirectoryReference { reference_id: reference_id.clone(), name: name.clone() };
        let directory = AuthorizedDirectory {
            reference: DirectoryReference { reference_id, name },
            selected_path,
            canonical_path,
        };
        self.directories = Vec::new();
        self.entries.clear();
        self.directories.push(directory);
        assert(self.directories() =~= seq![self.directories@[0]@]);
        Ok(reference)
    }

    /// Hands out the selected directory for one agent run. The reference
    /// must match exactly; the scope is gone from here either way once its
    /// id was found.
    pub fn take(&mut self, reference: &DirectoryReference) -> (r: Result<
        AuthorizedDirectory,
        FileError,
    >)
        requires
            old(self).wf(),
        ensures
            final(self).wf(),
            final(self).entries.records() == old(self).entries.records(),
            r is Ok <==> holds_directory(
                old(self).directories(),
                reference.reference_id@,
                reference.name@,
            ),
            r matches Ok(d) ==> d@ == old(self).directories()[0],
            r matches Err(e) ==> e == FileError::ReferenceInvalid,
            (old(self).directories().len() == 1 && old(self).directories()[0].reference_id
                == reference.reference_id@) ==> final(self).directories().len() == 0,
            !(old(self).directories().len() == 1 && old(self).directories()[0].reference_id
                == reference.reference_id@) ==> final(self).directories() == old(self).directories(),
    {
        if self.directories.len() == 1 && str_eq(
            self.directories[0].reference.reference_id.as_str(),
            reference.reference_id.as_str(),
        ) {
            let ghost first = self.directories()[0];
            assert(first == self.directories@[0]@);
            let directory = self.directories.pop().unwrap();
            assert(self.directories() =~= Seq::<DirectoryView>::empty());
            if str_eq(directory.reference.name.as_str(), reference.name.as_str()) {
                Ok(directory)
            } else {
                Err(FileError::ReferenceInvalid)
            }
        } else {
            Err(FileError::ReferenceInvalid)
        }
    }

    /// Withdraws the scope with this id and forgets its entries.
    pub fn release(&mut self, reference_id: &str)
        requires
            old(self).wf(),
        ensures
            final(self).wf(),
            final(self).entries.records() == kept(
                old(self).entries.records(),
                outside(reference_id@, None),
            ),
            (old(self).directories().len() == 1 && old(self).directories()[0].reference_id
                == reference_id@) ==> final(self).directories().len() == 0,
            !(old(self).directories().len() == 1 && old(self).directories()[0].reference_id
                == reference_id@) ==> final(self).directories() == old(self).directories(),
    {
        if self.directories.len() == 1 && str_eq(
            self.directories[0].reference.reference_id.as_str(),
            reference_id,
        ) {
            self.directories = Vec::new();
            assert(self.directories() =~= Seq::<DirectoryView>::empty());
        }
        self.entries.forget_tree(reference_id, None);
    }

    /// The recorded entry with this id, of whichever directory.
    pub fn resolve_entry(&self, reference_id: &str) -> (r: Result<DirectoryEntryRecord, FileError>)
        requires
            self.wf(),
        ensures
            r is Ok <==> exists|i: int|
                0 <= i < self.entries.records().len()
                    && (#[trigger] self.entries.records()[i]).reference_id == reference_id@,
            r matches Ok(e) ==> self.entries.records().contains(e@) && e@.reference_id
                == reference_id@,
            r matches Err(e) ==> e == FileError::EntryReferenceInvalid,
    {
        match self.entries.get(reference_id) {
            Some(e) => Ok(e),
            None => Err(FileError::EntryReferenceInvalid),
        }
    }
}

/// A text file the user attached, with the digest of what it held then.
pub struct AuthorizedFile {
    reference: Reference,
    selected_path: Vec<PathPart>,
    canonical_path: Vec<PathPart>,
    content_digest: String,
}

pub struct FileView {
    pub reference_id: Seq<char>,
    pub name: Seq<char>,
    pub size: u64,
    pub selected_path: Seq<PartView>,
    pub canonical_path: Seq<PartView>,
    pub content_digest: Seq<char>,
}

impl View for AuthorizedFile {
    type V = FileView;

    closed spec fn view(&self) -> FileView {
        FileView {
            reference_id: self.reference.reference_id@,
            name: self.reference.name@,
            size: self.reference.size,
            selected_path: parts_view(self.selected_path@),
            canonical_path: parts_view(self.canonical_path@),
            content_digest: self.content_digest@,
        }
    }
}

/// What reading an authorized file gives, when it now resolves to
/// `canonical_now` and holds `bytes`.
pub open spec fn read_outcome(file: FileView, canonical_now: Seq<PartView>, bytes: Seq<u8>) -> Result<
    Seq<char>,
    FileError,
> {
    if canonical_now != file.canonical_path {
        Err(FileError::Changed)
    } else if bytes.len() > MAX_SELECTED_FILE_BYTES {
        Err(FileError::TooLarge)
    } else if content_digest_of(bytes) != file.content_digest {
        Err(FileError::Changed)
    } else {
        decoded_text(bytes)
    }
}

impl AuthorizedFile {
    pub fn reference(&self) -> (r: &Reference)
        ensures
            r.reference_id@ == self@.reference_id,
            r.name@ == self@.name,
            r.size == self@.size,
    {
        &self.reference
    }

    pub fn selected_path(&self) -> (r: &[PathPart])
        ensures
            parts_view(r@) == self@.selected_path,
    {
        self.selected_path.as_slice()
    }

    /// The text of the file, if it still resolves to the authorized path
    /// and holds exactly the authorized content.
    pub fn read(&self, canonical_now: &[PathPart], bytes: Vec<u8>) -> (r: Result<String, FileError>)
        ensures
            r is Ok <==> read_outcome(self@, parts_view(canonical_now@), bytes@) is Ok,
            r matches Ok(text) ==> read_outcome(self@, parts_view(canonical_now@), bytes@) == Ok::<
                Seq<char>,
                FileError,
            >(text@),
            r matches Err(e) ==> read_outcome(self@, parts_view(canonical_now@), bytes@) == Err::<
                Seq<char>,
                FileError,
            >(e),
    {
        if !parts_equal(canonical_now, self.canonical_path.as_slice()) {
            return Err(FileError::Changed);
        }
        if bytes.len() as u64 > MAX_SELECTED_FILE_BYTES {
            return Err(FileError::TooLarge);
        }
        let current = digest(bytes.as_slice());
        if !str_eq(current.as_str(), self.content_digest.as_str()) {
            return Err(FileError::Changed);
        }
        decode_text(bytes)
    }
}

/// The file the user attached last.
pub struct SelectedFiles {
    files: Vec<AuthorizedFile>,
}

/// Whether the only attached file has this id and name.
pub open spec fn holds_file(files: Seq<FileView>, id: Seq<char>, name: Seq<char>) -> bool {
    files.len() == 1 && files[0].reference_id == id && files[0].name == name
}

/// The error that refuses a file, if any.
pub open spec fn file_selection_error(selected_path: Seq<PartView>, bytes: Seq<u8>) -> Option<
    FileError,
> {
    if bytes.len() > MAX_SELECTED_FILE_BYTES {
        Some(FileError::TooLarge)
    } else if decoded_text(bytes) is Err {
        Some(decoded_text(bytes)->Err_0)
    } else if shown_name(selected_path) is None {
        Some(FileError::InvalidName)
    } else {
        None
    }
}

impl SelectedFiles {
    pub closed spec fn files(&self) -> Seq<FileView> {
        self.files@.map_values(|f: AuthorizedFile| f@)
    }

    pub open spec fn wf(&self) -> bool {
        self.files().len() <= 1
    }

    pub fn new() -> (r: Self)
        ensures
            r.wf(),
            r.files().len() == 0,
    {
        let r = SelectedFiles { files: Vec::new() };
        assert(r.files() =~= Seq::<FileView>::empty());
        r
    }

    /// Attaches a text file, in place of any earlier one: it must be at
    /// most 16 KiB of UTF-8 text. Its digest is kept so that a later read
    /// can tell whether it changed.
    pub fn register(
        &mut self,
        selected_path: Vec<PathPart>,
        canonical_path: Vec<PathPart>,
        bytes: Vec<u8>,
    ) -> (r: Result<Reference, FileError>)
        requires
            old(self).wf(),
        ensures
            final(self).wf(),
            r is Ok <==> file_selection_error(parts_view(selected_path@), bytes@) is None,
            r matches Err(e) ==> file_selection_error(parts_view(selected_path@), bytes@) == Some(e),
            r is Err ==> final(self).files() == old(self).files(),
            r matches Ok(reference) ==> {
                &&& shown_name(parts_view(selected_path@)) == Some(reference.name@)
                &&& reference.size == bytes@.len()
                &&& final(self).files() == seq![
                    FileView {
                        reference_id: reference.reference_id@,
                        name: reference.name@,
                        size: reference.size,
                        selected_path: parts_view(selected_path@),
                        canonical_path: parts_view(canonical_path@),
                        content_digest: content_digest_of(bytes@),
                    },
                ]
                &&& holds_file(final(self).files(), reference.reference_id@, reference.name@)
            },
    {
        if bytes.len() as u64 > MAX_SELECTED_FILE_BYTES {
            return Err(FileError::TooLarge);
        }
        let content_digest = digest(bytes.as_slice());
        let size = bytes.len() as u64;
        match decode_text(bytes) {
            Ok(_) => {},
            Err(e) => return Err(e),
        }
        let name = match shown_name_of(selected_path.as_slice()) {
            Ok(name) => name,
            Err(e) => return Err(e),
        };
        let reference_id = crate::files::registry::new_reference_id();
        let reference = Reference { reference_id: reference_id.clone(), name: name.clone(), size };
        let file = AuthorizedFile {
            reference: Reference { reference_id, name, size },
            selected_path,
            canonical_path,
            content_digest,
        };
        self.files = Vec::new();
        self.files.push(file);
        assert(self.files() =~= seq![self.files@[0]@]);
        Ok(reference)
    }

    /// Hands out the attached file for one agent run. The reference must
    /// match exactly; the file is gone from here either way once its id was
    /// found.
    pub fn take(&mut self, reference: &Reference) -> (r: Result<AuthorizedFile, FileError>)
        requires
            old(self).wf(),
        ensures
            final(self).wf(),
            r is Ok <==> (holds_file(old(self).files(), reference.reference_id@, reference.name@)
                && old(self).files()[0].size == reference.size),
            r matches Ok(f) ==> f@ == old(self).files()[0],
            r matches Err(e) ==> e == FileError::ReferenceInvalid,
            (old(self).files().len() == 1 && old(self).files()[0].reference_id
                == reference.reference_id@) ==> final(self).files().len() == 0,
            !(old(self).files().len() == 1 && old(self).files()[0].reference_id
                == reference.reference_id@) ==> final(self).files() == old(self).files(),
    {
        if self.files.len() == 1 && str_eq(
            self.files[0].reference.reference_id.as_str(),
            reference.reference_id.as_str(),
        ) {
            let ghost first = self.files()[0];
            assert(first == self.files@[0]@);
            let file = self.files.pop().unwrap();
            assert(self.files() =~= Seq::<FileView>::empty());
            if str_eq(file.reference.name.as_str(), reference.name.as_str()) && file.reference.size
                == reference.size {
                Ok(file)
            } else {
                Err(FileError::ReferenceInvalid)
            }
        } else {
            Err(FileError::ReferenceInvalid)
        }
    }

    /// Detaches the file with this id.
    pub fn release(&mut self, reference_id: &str)
        requires
            old(self).wf(),
        ensures
            final(self).wf(),
            (old(self).files().len() == 1 && old(self).files()[0].reference_id == reference_id@)
                ==> final(self).files().len() == 0,
            !(old(self).files().len() == 1 && old(self).files()[0].reference_id == reference_id@)
                ==> final(self).files() == old(self).files(),
    {
        if self.files.len() == 1 && str_eq(self.files[0].reference.reference_id.as_str(), reference_id) {
            self.files = Vec::new();
            assert(self.files() =~= Seq::<FileView>::empty());
        }
    }
}

/// A file read back unchanged gives the text that was authorized.
pub proof fn lemma_unchanged_file_reads_back(file: FileView, bytes: Seq<u8>)
    requires
        file.content_digest == content_digest_of(bytes),
        bytes.len() <= MAX_SELECTED_FILE_BYTES,
        decoded_text(bytes) is Ok,
    ensures
        read_outcome(file, file.canonical_path, bytes) == decoded_text(bytes),
        read_outcome(file, file.canonical_path, bytes) == Ok::<Seq<char>, FileError>(
            decode_utf8(bytes),
        ),
{
}

} // verus!
