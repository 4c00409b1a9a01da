use yukin::model_provider::catalog::{find_model_provider_preset, model_provider_presets};
use yukin::protocol::model_provider::ReasoningEffort;

#[test]
fn finds_provider_by_stable_key() {
    let preset = find_model_provider_preset("deepseek").expect("DeepSeek preset");

    assert_eq!(preset.display_name, "DeepSeek");
    assert!(find_model_provider_preset("DeepSeek").is_none());
}

#[test]
fn describes_deepseek_model_reasoning_capabilities() {
    let presets = model_provider_presets();
    let models = &presets[0].connections[0].models;

    assert_eq!(models.len(), 2);
    assert!(models.iter().all(|model| model.supports_thinking));
    assert!(models.iter().all(|model| {
        model.reasoning_efforts
            == [
                ReasoningEffort::Low,
                ReasoningEffort::High,
                ReasoningEffort::Max,
            ]
    }));
}
