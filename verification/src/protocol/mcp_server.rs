use vstd::prelude::*;

use crate::protocol::common::RecordTimestamps;
use crate::text::{concat_str, str_eq};

verus! {

#[derive(Debug, Clone, PartialEq, Eq)]
pub struct McpServer {
    pub id: String,
    pub name: String,
    pub display_name: Option<String>,
    pub version: String,
    pub description: String,
    pub author_name: String,
    pub server_type: ServerType,
    pub source_kind: SourceKind,
    pub command: Option<String>,
    pub args: Vec<String>,
    pub enabled: bool,
    pub declared_tools: Vec<DeclaredTool>,
    pub config_fields: Vec<ConfigField>,
    pub metadata: RecordTimestamps,
}

/// How an MCP server was provided.
#[derive(Debug, Clone, Copy, PartialEq, Eq)]
pub enum SourceKind {
    Bundle,
    Command,
}

pub open spec fn source_kind_name(kind: SourceKind) -> Seq<char> {
    match kind {
        SourceKind::Bundle => "bundle"@,
        SourceKind::Command => "command"@,
    }
}

pub open spec fn source_kind_from_name(name: Seq<char>) -> Option<SourceKind> {
    if name == "bundle"@ {
        Some(SourceKind::Bundle)
    } else if name == "command"@ {
        Some(SourceKind::Command)
    } else {
        None
    }
}

impl SourceKind {
    pub fn as_str(self) -> (r: &'static str)
        ensures
            r@ == source_kind_name(self),
    {
        match self {
            SourceKind::Bundle => "bundle",
            SourceKind::Command => "command",
        }
    }
}

impl TryFrom<String> for SourceKind {
    type Error = String;

    fn try_from(value: String) -> (r: Result<Self, Self::Error>)
        ensures
            r is Ok <==> source_kind_from_name(value@) is Some,
            r matches Ok(kind) ==> source_kind_from_name(value@) == Some(kind),
            r matches Err(message) ==> message@ == "unsupported MCP source kind: "@ + value@,
    {
        if str_eq(value.as_str(), "bundle") {
            Ok(SourceKind::Bundle)
        } else if str_eq(value.as_str(), "command") {
            Ok(SourceKind::Command)
        } else {
            Err(concat_str("unsupported MCP source kind: ", value.as_str()))
        }
    }
}

/// The string error of a failed conversion is built at run time, so no
/// spec value stands for it; the exact outcome is stated on `try_from`.
impl vstd::std_specs::convert::TryFromSpecImpl<String> for SourceKind {
    open spec fn obeys_try_from_spec() -> bool {
        false
    }

    open spec fn try_from_spec(value: String) -> Result<Self, String> {
        Ok(SourceKind::Bundle)
    }
}

/// Parsing the name of an MCP source kind gives the kind back.
pub proof fn lemma_source_kind_name_round_trip(kind: SourceKind)
    ensures
        source_kind_from_name(source_kind_name(kind)) == Some(kind),
{
    reveal_strlit("bundle");
    reveal_strlit("command");
    assert("bundle"@.len() != "command"@.len());
}

/// The runtime that starts an MCP server.
#[derive(Debug, Clone, Copy, PartialEq, Eq)]
pub enum ServerType {
    Node,
    Python,
    Binary,
    Uv,
}

pub open spec fn server_type_name(server_type: ServerType) -> Seq<char> {
    match server_type {
        ServerType::Node => "node"@,
        ServerType::Python => "python"@,
        ServerType::Binary => "binary"@,
        ServerType::Uv => "uv"@,
    }
}

pub open spec fn server_type_from_name(name: Seq<char>) -> Option<ServerType> {
    if name == "node"@ {
        Some(ServerType::Node)
    } else if name == "python"@ {
        Some(ServerType::Python)
    } else if name == "binary"@ {
        Some(ServerType::Binary)
    } else if name == "uv"@ {
        Some(ServerType::Uv)
    } else {
        None
    }
}

impl ServerType {
    pub fn as_str(self) -> (r: &'static str)
        ensures
            r@ == server_type_name(self),
    {
        match self {
            ServerType::Node => "node",
            ServerType::Python => "python",
            ServerType::Binary => "binary",
            ServerType::Uv => "uv",
        }
    }
}

impl TryFrom<String> for ServerType {
    type Error = String;

    fn try_from(value: String) -> (r: Result<Self, Self::Error>)
        ensures
            r is Ok <==> server_type_from_name(value@) is Some,
            r matches Ok(server_type) ==> server_type_from_name(value@) == Some(server_type),
            r matches Err(message) ==> message@ == "unsupported MCP server type: "@ + value@,
    {
        if str_eq(value.as_str(), "node") {
            Ok(ServerType::Node)
        } else if str_eq(value.as_str(), "python") {
            Ok(ServerType::Python)
        } else if str_eq(value.as_str(), "binary") {
            Ok(ServerType::Binary)
        } else if str_eq(value.as_str(), "uv") {
            Ok(ServerType::Uv)
        } else {
            Err(concat_str("unsupported MCP server type: ", value.as_str()))
        }
    }
}

/// The string error of a failed conversion is built at run time, so no
/// spec value stands for it; the exact outcome is stated on `try_from`.
impl vstd::std_specs::convert::TryFromSpecImpl<String> for ServerType {
    open spec fn obeys_try_from_spec() -> bool {
        false
    }

    open spec fn try_from_spec(value: String) -> Result<Self, String> {
        Ok(ServerType::Node)
    }
}

/// Parsing the name of an MCP server type gives the type back.
pub proof fn lemma_server_type_name_round_trip(server_type: ServerType)
    ensures
        server_type_from_name(server_type_name(server_type)) == Some(server_type),
{
    reveal_strlit("node");
    reveal_strlit("python");
    reveal_strlit("binary");
    reveal_strlit("uv");
    assert("node"@.len() != "python"@.len());
    assert("node"@.len() != "binary"@.len());
    assert("node"@.len() != "uv"@.len());
    assert("python"@[0] != "binary"@[0]);
    assert("python"@.len() != "uv"@.len());
    assert("binary"@.len() != "uv"@.len());
}

#[derive(Debug, Clone, PartialEq, Eq)]
pub struct DeclaredTool {
    pub name: String,
    pub description: String,
}

#[derive(Debug, Clone, PartialEq, Eq)]
pub struct ConfigField {
    pub name: String,
    pub title: String,
    pub description: String,
    pub field_type: String,
    pub required: bool,
    pub sensitive: bool,
}

#[derive(Debug, Clone, PartialEq, Eq)]
pub struct SetEnabledRequest {
    pub id: String,
    pub enabled: bool,
}

#[derive(Debug, Clone, PartialEq, Eq)]
pub struct DeleteRequest {
    pub id: String,
}

} // verus!
