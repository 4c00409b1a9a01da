//! The catalog of provider presets offered when a provider is configured.

use vstd::prelude::*;

use crate::protocol::model_provider::{
    ApiFormat, ConnectionPreset, ModelPreset, ModelProviderPreset, ReasoningEffort,
};
use crate::text::str_eq;

verus! {

/// The reasoning efforts that the DeepSeek models accept.
pub open spec fn deepseek_efforts() -> Seq<ReasoningEffort> {
    seq![ReasoningEffort::Low, ReasoningEffort::High, ReasoningEffort::Max]
}

pub open spec fn is_deepseek_model(m: ModelPreset, model_id: Seq<char>, display_name: Seq<char>) -> bool {
    &&& m.model_id@ == model_id
    &&& m.display_name@ == display_name
    &&& m.supports_thinking
    &&& m.reasoning_efforts@ == deepseek_efforts()
}

/// The DeepSeek preset: one OpenAI-format endpoint with the V4 Flash and
/// V4 Pro models, both with thinking and three reasoning efforts.
pub open spec fn is_deepseek_preset(p: ModelProviderPreset) -> bool {
    &&& p.provider_key@ == "deepseek"@
    &&& p.display_name@ == "DeepSeek"@
    &&& p.connections@.len() == 1
    &&& p.connections@[0].api_format == ApiFormat::OpenAi
    &&& p.connections@[0].base_url@ == "https://api.deepseek.com/chat/completions"@
    &&& p.connections@[0].models@.len() == 2
    &&& is_deepseek_model(p.connections@[0].models@[0], "deepseek-v4-flash"@, "DeepSeek V4 Flash"@)
    &&& is_deepseek_model(p.connections@[0].models@[1], "deepseek-v4-pro"@, "DeepSeek V4 Pro"@)
}

fn deepseek_efforts_vec() -> (v: Vec<ReasoningEffort>)
    ensures
        v@ == deepseek_efforts(),
{
    let mut v = Vec::new();
    v.push(ReasoningEffort::Low);
    v.push(ReasoningEffort::High);
    v.push(ReasoningEffort::Max);
    assert(v@ =~= deepseek_efforts());
    v
}

fn deepseek_preset() -> (p: ModelProviderPreset)
    ensures
        is_deepseek_preset(p),
{
    let mut models = Vec::new();
    models.push(
        ModelPreset {
            model_id: "deepseek-v4-flash".to_owned(),
            display_name: "DeepSeek V4 Flash".to_owned(),
            supports_thinking: true,
            reasoning_efforts: deepseek_efforts_vec(),
        },
    );
    models.push(
        ModelPreset {
            model_id: "deepseek-v4-pro".to_owned(),
            display_name: "DeepSeek V4 Pro".to_owned(),
            supports_thinking: true,
            reasoning_efforts: deepseek_efforts_vec(),
        },
    );
    let mut connections = Vec::new();
    connections.push(
        ConnectionPreset {
            api_format: ApiFormat::OpenAi,
            base_url: "https://api.deepseek.com/chat/completions".to_owned(),
            models,
        },
    );
    ModelProviderPreset {
        provider_key: "deepseek".to_owned(),
        display_name: "DeepSeek".to_owned(),
        connections,
    }
}

/// Every provider preset: DeepSeek alone.
pub fn model_provider_presets() -> (r: Vec<ModelProviderPreset>)
    ensures
        r@.len() == 1,
        is_deepseek_preset(r@[0]),
{
    let mut r = Vec::new();
    r.push(deepseek_preset());
    r
}

/// The preset whose stable key is exactly `provider_key` (keys are case
/// sensitive).
pub fn find_model_provider_preset(provider_key: &str) -> (r: Option<ModelProviderPreset>)
    ensures
        r is Some <==> provider_key@ == "deepseek"@,
        r matches Some(p) ==> is_deepseek_preset(p),
{
    let presets = model_provider_presets();
    let mut presets = presets;
    let mut i: usize = 0;
    while i < presets.len()
        invariant
            presets@.len() == 1,
            is_deepseek_preset(presets@[0]),
            i <= 1,
            i == 1 ==> provider_key@ != "deepseek"@,
        decreases 1 - i,
    {
        if str_eq(presets[i].provider_key.as_str(), provider_key) {
            return Some(presets.remove(i));
        }
        i = i + 1;
    }
    None
}

} // verus!
