use vstd::prelude::*;

use crate::protocol::common::RecordTimestamps;
use crate::text::{concat_str, str_eq};

verus! {

#[derive(Debug, Clone, PartialEq, Eq)]
pub struct ImportedSkill {
    pub id: String,
    pub name: String,
    pub description: String,
    pub source_kind: SourceKind,
    pub content_digest: String,
    pub enabled: bool,
    pub metadata: RecordTimestamps,
}

/// Where an imported skill came from.
#[derive(Debug, Clone, Copy, PartialEq, Eq)]
pub enum SourceKind {
    Directory,
    Archive,
}

pub open spec fn source_kind_name(kind: SourceKind) -> Seq<char> {
    match kind {
        SourceKind::Directory => "directory"@,
        SourceKind::Archive => "archive"@,
    }
}

pub open spec fn source_kind_from_name(name: Seq<char>) -> Option<SourceKind> {
    if name == "directory"@ {
        Some(SourceKind::Directory)
    } else if name == "archive"@ {
        Some(SourceKind::Archive)
    } else {
        None
    }
}

impl SourceKind {
    pub fn as_str(self) -> (r: &'static str)
        ensures
            r@ == source_kind_name(self),
    {
        match self {
            SourceKind::Directory => "directory",
            SourceKind::Archive => "archive",
        }
    }
}

impl TryFrom<String> for SourceKind {
    type Error = String;

    fn try_from(value: String) -> (r: Result<Self, Self::Error>)
        ensures
            r is Ok <==> source_kind_from_name(value@) is Some,
            r matches Ok(kind) ==> source_kind_from_name(value@) == Some(kind),
            r matches Err(message) ==> message@ == "unsupported skill source kind: "@ + value@,
    {
        if str_eq(value.as_str(), "directory") {
            Ok(SourceKind::Directory)
        } else if str_eq(value.as_str(), "archive") {
            Ok(SourceKind::Archive)
        } else {
            Err(concat_str("unsupported skill source kind: ", value.as_str()))
        }
    }
}

/// The string error of a failed conversion is built at run time, so no
/// spec value stands for it; the exact outcome is stated on `try_from`.
impl vstd::std_specs::convert::TryFromSpecImpl<String> for SourceKind {
    open spec fn obeys_try_from_spec() -> bool {
        false
    }

    open spec fn try_from_spec(value: String) -> Result<Self, String> {
        Ok(SourceKind::Directory)
    }
}

/// Parsing the name of a skill source kind gives the kind back.
pub proof fn lemma_source_kind_name_round_trip(kind: SourceKind)
    ensures
        source_kind_from_name(source_kind_name(kind)) == Some(kind),
{
    reveal_strlit("directory");
    reveal_strlit("archive");
    assert("directory"@.len() != "archive"@.len());
}

#[derive(Debug, Clone, PartialEq, Eq)]
pub struct SetEnabledRequest {
    pub id: String,
    pub enabled: bool,
}

#[derive(Debug, Clone, PartialEq, Eq)]
pub struct DeleteRequest {
    pub id: String,
}

} // verus!
