//! Authorized file and directory scopes: the limits, the rules for names the
//! agent may create, text decoding and content digests.

use vstd::prelude::*;
use sha2::Digest;
use vstd::utf8::{decode_utf8, encode_utf8, valid_utf8};

use crate::errors::FileError;
use crate::paths::{
    dot, dot_dot, file_extension, is_single_normal, name_extension, path_parts,
    segment_parts, single_normal, split_slash, PartView,
};
use crate::text::{chars_eq, chars_of, has_control, is_control_char, trim, trim_chars};

pub mod registry;
pub mod scopes;
pub mod moves;
pub mod walk;

verus! {

pub const MAX_SELECTED_FILE_BYTES: u64 = 16 * 1024;
pub const MAX_DIRECTORY_ENTRIES: usize = 100;
pub const MAX_DIRECTORY_SEARCH_DEPTH: usize = 4;
pub const MAX_DIRECTORY_SEARCH_RESULTS: usize = 50;
pub const MAX_CREATED_TEXT_FILE_BYTES: usize = 32 * 1024;
pub const MAX_COPY_ENTRIES: usize = 100;
pub const MAX_COPY_DEPTH: usize = 8;
pub const MAX_COPY_BYTES: u64 = 16 * 1024 * 1024;
pub const MAX_BATCH_MOVE_ENTRIES: usize = 20;
pub const MAX_ENTRY_NAME_BYTES: usize = 128;

/// The kind of entry a search looks for, or finds.
#[derive(Debug, Clone, Copy, PartialEq, Eq, Structural)]
pub enum DirectorySearchKind {
    Any,
    File,
    Directory,
}

impl DirectorySearchKind {
    pub open spec fn name(self) -> Seq<char> {
        match self {
            DirectorySearchKind::Any => "any"@,
            DirectorySearchKind::File => "file"@,
            DirectorySearchKind::Directory => "directory"@,
        }
    }

    pub fn as_str(self) -> (r: &'static str)
        ensures
            r@ == self.name(),
    {
        match self {
            DirectorySearchKind::Any => "any",
            DirectorySearchKind::File => "file",
            DirectorySearchKind::Directory => "directory",
        }
    }

    /// Whether an entry of kind `entry_kind` satisfies this filter.
    pub fn matches(self, entry_kind: Self) -> (r: bool)
        ensures
            r == (self == DirectorySearchKind::Any || self == entry_kind),
    {
        self == DirectorySearchKind::Any || self == entry_kind
    }
}

/// How a batch move treats a destination that is already taken.
#[derive(Debug, Clone, Copy, PartialEq, Eq, Structural)]
pub enum BatchMoveConflictStrategy {
    Fail,
    Skip,
}

/// What happened to one entry of a batch move.
#[derive(Debug, Clone, Copy, PartialEq, Eq, Structural)]
pub enum BatchMoveItemStatus {
    Moved,
    Skipped,
}

impl BatchMoveItemStatus {
    pub open spec fn name(self) -> Seq<char> {
        match self {
            BatchMoveItemStatus::Moved => "moved"@,
            BatchMoveItemStatus::Skipped => "skipped"@,
        }
    }

    pub fn as_str(self) -> (r: &'static str)
        ensures
            r@ == self.name(),
    {
        match self {
            BatchMoveItemStatus::Moved => "moved",
            BatchMoveItemStatus::Skipped => "skipped",
        }
    }
}

/// Whether `s` starts with `c`.
pub open spec fn starts_with_char(s: Seq<char>, c: char) -> bool {
    s.len() > 0 && s[0] == c
}

/// Whether `s` contains `/` or `\`.
pub open spec fn has_separator(s: Seq<char>) -> bool {
    s.contains('/') || s.contains('\\')
}

/// A name the agent may give a new entry: non-empty, at most 128 bytes,
/// without surrounding white space, not hidden, without control characters
/// or separators, and exactly one normal path component.
pub open spec fn valid_entry_name(name: Seq<char>) -> bool {
    &&& name.len() > 0
    &&& encode_utf8(name).len() <= MAX_ENTRY_NAME_BYTES
    &&& trim(name) == name
    &&& !starts_with_char(name, '.')
    &&& !has_control(name)
    &&& !has_separator(name)
    &&& single_normal(name)
}

pub open spec fn txt() -> Seq<char> {
    seq!['t', 'x', 't']
}

/// A name for a new text file: a valid entry name with extension `txt`.
pub open spec fn valid_text_file_name(name: Seq<char>) -> bool {
    valid_entry_name(name) && name_extension(name) == Some(txt())
}

pub proof fn lemma_split_without_slash(s: Seq<char>)
    requires
        !s.contains('/'),
    ensures
        split_slash(s) == seq![s],
    decreases s.len(),
{
    if s.len() == 0 {
        assert(s =~= Seq::<char>::empty());
    } else {
        let t = s.drop_last();
        assert(!t.contains('/')) by {
            if t.contains('/') {
                let k = choose|k: int| 0 <= k < t.len() && t[k] == '/';
                assert(s[k] == '/');
            }
        }
        lemma_split_without_slash(t);
        let prev = split_slash(t);
        assert(prev == seq![t]);
        assert(s[s.len() - 1] != '/') by {
            if s[s.len() - 1] == '/' {
                assert(s.contains('/'));
            }
        }
        assert(split_slash(s) == prev.update(prev.len() - 1, prev.last().push(s.last())));
        assert(t.push(s.last()) =~= s);
        assert(split_slash(s) =~= seq![s]);
    }
}

/// A plain name (no separator, not starting with a dot) is the path of
/// exactly one normal component: itself.
pub proof fn lemma_plain_name_parts(s: Seq<char>)
    requires
        s.len() > 0,
        !s.contains('/'),
        s[0] != '.',
    ensures
        path_parts(s) == seq![PartView::Normal(s)],
{
    lemma_split_without_slash(s);
    assert(s != dot()) by {
        if s == dot() {
            assert(dot()[0] == '.');
        }
    }
    assert(s != dot_dot()) by {
        if s == dot_dot() {
            assert(dot_dot()[0] == '.');
        }
    }
    assert(s[0] != '/') by {
        if s[0] == '/' {
            assert(s.contains('/'));
        }
    }
    let segs = seq![s];
    assert(segs.drop_last() =~= Seq::<Seq<char>>::empty());
    assert(segs.last() == s);
    assert(segment_parts(segs.drop_last()) == Seq::<PartView>::empty());
    assert(segment_parts(segs) =~= seq![PartView::Normal(s)]);
}

/// Valid entry names never leave the directory they are created in.
pub proof fn lemma_valid_name_stays_in_directory(name: Seq<char>)
    requires
        valid_entry_name(name),
    ensures
        path_parts(name) == seq![PartView::Normal(name)],
{
    lemma_plain_name_parts(name);
}

/// Whether `name` is a valid name for a new entry.
pub fn validate_created_entry_name(name: &str) -> (r: bool)
    ensures
        r == valid_entry_name(name@),
{
    let cs = chars_of(name);
    if cs.len() == 0 {
        return false;
    }
    if name.as_bytes().len() > MAX_ENTRY_NAME_BYTES {
        return false;
    }
    let trimmed = trim_chars(cs.as_slice());
    if !chars_eq(trimmed.as_slice(), cs.as_slice()) {
        return false;
    }
    if cs[0] == '.' {
        return false;
    }
    let mut i: usize = 0;
    while i < cs.len()
        invariant
            i <= cs@.len(),
            cs@ == name@,
            forall|j: int|
                #![auto]
                0 <= j < i ==> !is_control_char(cs@[j]) && cs@[j] != '/' && cs@[j] != '\\',
        decreases cs@.len() - i,
    {
        let c = cs[i];
        if crate::text::char_is_control(c) || c == '/' || c == '\\' {
            proof {
                assert(name@[i as int] == c);
                if c == '/' {
                    assert(name@.contains('/'));
                }
                if c == '\\' {
                    assert(name@.contains('\\'));
                }
            }
            return false;
        }
        i = i + 1;
    }
    assert(!has_separator(name@));
    assert(!has_control(name@));
    is_single_normal(name)
}

/// The error for an invalid new text file, or `None`.
pub open spec fn created_text_file_error(name: Seq<char>, content: Seq<char>) -> Option<FileError> {
    if !valid_text_file_name(name) {
        Some(FileError::InvalidName)
    } else if encode_utf8(content).len() > MAX_CREATED_TEXT_FILE_BYTES {
        Some(FileError::CreatedTextTooLarge)
    } else {
        None
    }
}

/// Checks the name and size of a text file the agent wants to create.
pub fn validate_created_text_file(file_name: &str, content: &str) -> (r: Result<(), FileError>)
    ensures
        r is Ok <==> created_text_file_error(file_name@, content@) is None,
        r matches Err(e) ==> created_text_file_error(file_name@, content@) == Some(e),
{
    let name_ok = validate_created_entry_name(file_name);
    let ext_ok = match file_extension(file_name) {
        Some(ext) => {
            proof {
                reveal_strlit("txt");
                assert("txt"@ =~= txt());
            }
            crate::text::str_eq(ext.as_str(), "txt")
        },
        None => false,
};
    assert(ext_ok == (name_extension(file_name@) == Some(txt())));
    let valid = name_ok && ext_ok;
    if !valid {
        return Err(FileError::InvalidName);
    }
    if content.as_bytes().len() > MAX_CREATED_TEXT_FILE_BYTES {
        return Err(FileError::CreatedTextTooLarge);
    }
    Ok(())
}

/// Checks the name of a directory the agent wants to create.
pub fn validate_created_directory(directory_name: &str) -> (r: Result<(), FileError>)
    ensures
        r is Ok <==> valid_entry_name(directory_name@),
        r is Err ==> r == Err::<(), FileError>(FileError::DirectoryNameInvalid),
{
    if validate_created_entry_name(directory_name) {
        Ok(())
    } else {
        Err(FileError::DirectoryNameInvalid)
    }
}

/// Checks the name of a copy's destination.
pub fn validate_copy_destination_name(name: &str) -> (r: Result<(), FileError>)
    ensures
        r is Ok <==> valid_entry_name(name@),
        r is Err ==> r == Err::<(), FileError>(FileError::CopyDestinationInvalid),
{
    if validate_created_entry_name(name) {
        Ok(())
    } else {
        Err(FileError::CopyDestinationInvalid)
    }
}

/// Checks the name of a move's destination.
pub fn validate_move_destination_name(name: &str) -> (r: Result<(), FileError>)
    ensures
        r is Ok <==> valid_entry_name(name@),
        r is Err ==> r == Err::<(), FileError>(FileError::MoveDestinationInvalid),
{
    if validate_created_entry_name(name) {
        Ok(())
    } else {
        Err(FileError::MoveDestinationInvalid)
    }
}

/// A character that text files may not contain: a control character other
/// than line feed, carriage return and tab.
pub open spec fn disallowed_in_text(c: char) -> bool {
    is_control_char(c) && c != '\n' && c != '\r' && c != '\t'
}

pub open spec fn has_disallowed(s: Seq<char>) -> bool {
    exists|i: int| 0 <= i < s.len() && disallowed_in_text(#[trigger] s[i])
}

/// What decoding `bytes` as a text file gives.
pub open spec fn decoded_text(bytes: Seq<u8>) -> Result<Seq<char>, FileError> {
    if !valid_utf8(bytes) {
        Err(FileError::InvalidEncoding)
    } else if has_disallowed(decode_utf8(bytes)) {
        Err(FileError::NotText)
    } else {
        Ok(decode_utf8(bytes))
    }
}

/// `String::from_utf8`: the string that the bytes encode, if they are
/// UTF-8.
#[verifier::external_body]
fn utf8_string(bytes: Vec<u8>) -> (r: Option<String>)
    ensures
        r is Some <==> valid_utf8(bytes@),
        r matches Some(s) ==> s@ == decode_utf8(bytes@),
{
    String::from_utf8(bytes).ok()
}

/// Decodes the bytes of a selected file as text.
pub fn decode_text(bytes: Vec<u8>) -> (r: Result<String, FileError>)
    ensures
        r is Ok <==> decoded_text(bytes@) is Ok,
        r matches Ok(s) ==> decoded_text(bytes@) == Ok::<Seq<char>, FileError>(s@),
        r matches Err(e) ==> decoded_text(bytes@) == Err::<Seq<char>, FileError>(e),
{
    let ghost bs = bytes@;
    let content = match utf8_string(bytes) {
        Some(content) => content,
        None => return Err(FileError::InvalidEncoding),
};
    let cs = chars_of(content.as_str());
    let mut i: usize = 0;
    while i < cs.len()
        invariant
            i <= cs@.len(),
            bs == bytes@,
            valid_utf8(bs),
            cs@ == decode_utf8(bs),
            forall|j: int| 0 <= j < i ==> !disallowed_in_text(#[trigger] cs@[j]),
        decreases cs@.len() - i,
    {
        let c = cs[i];
        if crate::text::char_is_control(c) && c != '\n' && c != '\r' && c != '\t' {
            assert(decode_utf8(bs)[i as int] == c);
            assert(disallowed_in_text(decode_utf8(bs)[i as int]));
            assert(has_disallowed(decode_utf8(bs)));
            return Err(FileError::NotText);
        }
        i = i + 1;
    }
    Ok(content)
}

/// A name for the SHA-256 digest of a byte sequence.
pub uninterp spec fn sha256_of(bytes: Seq<u8>) -> Seq<u8>;

/// `sha2::Sha256::digest`: the 32-byte SHA-256 digest of `bytes`.
#[verifier::external_body]
fn sha256_bytes(bytes: &[u8]) -> (r: Vec<u8>)
    ensures
        r@ == sha256_of(bytes@),
        r@.len() == 32,
{
    sha2::Sha256::digest(bytes).to_vec()
}

/// The lower-case hexadecimal digit of `v` (below 16).
pub open spec fn hex_digit(v: int) -> char {
    if v < 10 {
        (48 + v) as char
    } else {
        (87 + v) as char
    }
}

/// Each byte as two lower-case hexadecimal digits, high digit first.
pub open spec fn hex_lower(bytes: Seq<u8>) -> Seq<char>
    decreases bytes.len(),
{
    if bytes.len() == 0 {
        Seq::empty()
    } else {
        hex_lower(bytes.drop_last()) + seq![
            hex_digit(bytes.last() as int / 16),
            hex_digit(bytes.last() as int % 16),
        ]
    }
}

/// `hex::encode`: the bytes as lower-case hexadecimal text.
#[verifier::external_body]
fn hex_encode(bytes: &[u8]) -> (r: String)
    ensures
        r@ == hex_lower(bytes@),
{
    hex::encode(bytes)
}

/// The digest that identifies content: SHA-256 in lower-case hex.
pub open spec fn content_digest_of(bytes: Seq<u8>) -> Seq<char> {
    hex_lower(sha256_of(bytes))
}

/// The lower-case hex SHA-256 digest of `bytes`.
pub fn digest(bytes: &[u8]) -> (r: String)
    ensures
        r@ == content_digest_of(bytes@),
{
    let hash = sha256_bytes(bytes);
    hex_encode(hash.as_slice())
}

/// Maps a failed create to a file error: an existing target is
/// `AlreadyExists`, anything else an I/O failure with its message.
pub fn map_create_error(already_exists: bool, message: String) -> (r: FileError)
    ensures
        already_exists ==> r == FileError::AlreadyExists,
        !already_exists ==> r == FileError::Io(message),
{
    if already_exists {
        FileError::AlreadyExists
    } else {
        FileError::Io(message)
    }
}

} // verus!
