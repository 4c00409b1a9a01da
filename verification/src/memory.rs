//! The kinds of long-term memory the agent keeps.

use vstd::prelude::*;

verus! {

/// What a stored memory is about.
#[derive(Debug, Clone, Copy, PartialEq, Eq, Structural)]
pub enum MemoryKind {
    User,
    Feedback,
    Project,
    Reference,
}

impl MemoryKind {
    pub open spec fn name(self) -> Seq<char> {
        match self {
            MemoryKind::User => "user"@,
            MemoryKind::Feedback => "feedback"@,
            MemoryKind::Project => "project"@,
            MemoryKind::Reference => "reference"@,
        }
    }

    /// The name under which the kind is stored.
    pub fn as_str(&self) -> (r: &'static str)
        ensures
            r@ == self.name(),
    {
        match self {
            MemoryKind::User => "user",
            MemoryKind::Feedback => "feedback",
            MemoryKind::Project => "project",
            MemoryKind::Reference => "reference",
        }
    }
}

} // verus!
