use vstd::prelude::*;

use crate::protocol::common::RecordTimestamps;
use crate::text::{concat_str, str_eq};

verus! {

/// The wire format that a model provider speaks.
#[derive(Debug, Clone, Copy, PartialEq, Eq)]
pub enum ApiFormat {
    OpenAi,
    Anthropic,
}

pub open spec fn api_format_name(format: ApiFormat) -> Seq<char> {
    match format {
        ApiFormat::OpenAi => "openai"@,
        ApiFormat::Anthropic => "anthropic"@,
    }
}

pub open spec fn api_format_from_name(name: Seq<char>) -> Option<ApiFormat> {
    if name == "openai"@ {
        Some(ApiFormat::OpenAi)
    } else if name == "anthropic"@ {
        Some(ApiFormat::Anthropic)
    } else {
        None
    }
}

impl ApiFormat {
    pub fn as_str(self) -> (r: &'static str)
        ensures
            r@ == api_format_name(self),
    {
        match self {
            ApiFormat::OpenAi => "openai",
            ApiFormat::Anthropic => "anthropic",
        }
    }
}

impl TryFrom<String> for ApiFormat {
    type Error = String;

    fn try_from(value: String) -> (r: Result<Self, Self::Error>)
        ensures
            r is Ok <==> api_format_from_name(value@) is Some,
            r matches Ok(format) ==> api_format_from_name(value@) == Some(format),
            r matches Err(message) ==> message@ == "unsupported API format: "@ + value@,
    {
        if str_eq(value.as_str(), "openai") {
            Ok(ApiFormat::OpenAi)
        } else if str_eq(value.as_str(), "anthropic") {
            Ok(ApiFormat::Anthropic)
        } else {
            Err(concat_str("unsupported API format: ", value.as_str()))
        }
    }
}

/// The string error of a failed conversion is built at run time, so no
/// spec value stands for it; the exact outcome is stated on `try_from`.
impl vstd::std_specs::convert::TryFromSpecImpl<String> for ApiFormat {
    open spec fn obeys_try_from_spec() -> bool {
        false
    }

    open spec fn try_from_spec(value: String) -> Result<Self, String> {
        Ok(ApiFormat::OpenAi)
    }
}

/// Parsing the name of an API format gives the format back.
pub proof fn lemma_api_format_name_round_trip(format: ApiFormat)
    ensures
        api_format_from_name(api_format_name(format)) == Some(format),
{
    reveal_strlit("openai");
    reveal_strlit("anthropic");
    assert("openai"@.len() != "anthropic"@.len());
}

/// How much reasoning a model is asked to spend (`Off`: none at all).
#[derive(Debug, Clone, Copy, PartialEq, Eq)]
pub enum ReasoningEffort {
    Off,
    Minimal,
    Low,
    Medium,
    High,
    XHigh,
    Max,
}

#[derive(Debug, Clone, PartialEq, Eq)]
pub struct ModelProvider {
    pub id: String,
    pub provider_name: String,
    pub api_format: ApiFormat,
    pub base_url: String,
    pub provider_alias: String,
    pub metadata: RecordTimestamps,
}

#[derive(Debug, Clone, PartialEq, Eq)]
pub struct CreateRequest {
    pub provider_name: String,
    pub api_format: ApiFormat,
    pub base_url: String,
    pub provider_alias: String,
    pub api_key: String,
}

#[derive(Debug, Clone, PartialEq, Eq)]
pub struct FindRequest {
    pub id: String,
}

#[derive(Debug, Clone, PartialEq, Eq)]
pub struct UpdateRequest {
    pub id: String,
    pub provider_name: Option<String>,
    pub api_format: Option<ApiFormat>,
    pub base_url: Option<String>,
    pub provider_alias: Option<String>,
}

#[derive(Debug, Clone, PartialEq, Eq)]
pub struct ReplaceCredentialRequest {
    pub id: String,
    pub api_key: String,
}

#[derive(Debug, Clone, PartialEq, Eq)]
pub struct DeleteRequest {
    pub id: String,
}

/// A model that a provider preset offers.
#[derive(Debug, Clone, PartialEq, Eq)]
pub struct ModelPreset {
    pub model_id: String,
    pub display_name: String,
    pub supports_thinking: bool,
    pub reasoning_efforts: Vec<ReasoningEffort>,
}

/// One endpoint of a provider preset.
#[derive(Debug, Clone, PartialEq, Eq)]
pub struct ConnectionPreset {
    pub api_format: ApiFormat,
    pub base_url: String,
    pub models: Vec<ModelPreset>,
}

/// A known model provider that the user can configure in one step.
#[derive(Debug, Clone, PartialEq, Eq)]
pub struct ModelProviderPreset {
    pub provider_key: String,
    pub display_name: String,
    pub connections: Vec<ConnectionPreset>,
}

} // verus!
