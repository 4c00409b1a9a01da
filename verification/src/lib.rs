//! Verified core of the yukin desktop agent: tool metadata and argument
//! validation, authorized file scopes, workspace paths and edits, skill
//! selection, provider presets, runs and their approvals, diagnostics
//! retention, and the protocol values exchanged with the frontend.

pub mod agent;
pub mod diagnostics;
pub mod errors;
pub mod files;
pub mod memory;
pub mod model_provider;
pub mod path_safety;
pub mod paths;
pub mod protocol;
pub mod response_stream;
pub mod retention;
pub mod runs;
pub mod text;
pub mod workspace;
