use vstd::prelude::*;

verus! {

/// What the frontend learns of a built-in skill.
#[derive(Debug, Clone, PartialEq, Eq)]
pub struct Metadata {
    pub id: String,
    pub version: String,
    pub title: String,
    pub description: String,
    pub required_tools: Vec<String>,
}

} // verus!
