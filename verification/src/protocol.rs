//! Data exchanged with the frontend and stored in the database: records,
//! requests and the closed sets of status, role and kind names.

pub mod agent_run;
pub mod common;
pub mod conversation;
pub mod diagnostics;
pub mod file;
pub mod imported_skill;
pub mod mcp_server;
pub mod model_provider;
pub mod model_response;
pub mod skill;
