use vstd::prelude::*;

verus! {

/// Creation and update times of a stored record.
#[derive(Debug, Clone, PartialEq, Eq)]
pub struct RecordTimestamps {
    pub created_at: String,
    pub updated_at: String,
}

} // verus!
