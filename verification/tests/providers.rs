//! Which provider a model is asked through, and what a model is told first.

use tokencode::json::Json;
use tokencode::model_instructions::base_instructions_for;
use tokencode::model_provider_resolver::resolve_provider_for_model;
use tokencode::model_provider_resolver::resolve_provider_id_for_model;
use tokencode::model_provider_resolver::ModelInfo;
use tokencode::model_provider_resolver::ModelProviderInfo;
use tokencode::model_provider_resolver::WireApi;

fn provider(name: &str, base_url: Option<&str>, wire_api: WireApi) -> ModelProviderInfo {
    ModelProviderInfo {
        name: name.to_string(),
        base_url: base_url.map(String::from),
        wire_api,
        max_output_tokens: None,
        payload: Json::Text(format!("{name} settings")),
    }
}

fn built_in_model_providers() -> Vec<(String, ModelProviderInfo)> {
    vec![
        ("openai".to_string(), provider("OpenAI", None, WireApi::Responses)),
        (
            "anthropic".to_string(),
            provider("Anthropic", Some("https://api.anthropic.com"), WireApi::Anthropic),
        ),
        (
            "glm".to_string(),
            provider("GLM", Some("https://open.bigmodel.cn/api/paas/v4"), WireApi::Chat),
        ),
    ]
}

fn model_with_provider(slug: &str, provider_id: Option<&str>) -> ModelInfo {
    ModelInfo {
        slug: slug.to_string(),
        provider_id: provider_id.map(String::from),
        payload: Json::Null,
    }
}

#[test]
fn hits_declared_provider() {
    let providers = built_in_model_providers();
    let info = model_with_provider("glm-5.2", Some("glm"));
    let resolved = resolve_provider_for_model(&info, &providers, "openai", false);
    assert_eq!(resolved.wire_api, WireApi::Chat);
    assert_eq!(resolved.base_url.as_deref(), Some("https://open.bigmodel.cn/api/paas/v4"));
}

#[test]
fn anthropic_provider_wires_anthropic_api() {
    let providers = built_in_model_providers();
    let info = model_with_provider("opus-4-8", Some("anthropic"));
    let resolved = resolve_provider_for_model(&info, &providers, "openai", false);
    assert_eq!(resolved.wire_api, WireApi::Anthropic);
    assert_eq!(resolved.max_output_tokens, None);
}

#[test]
fn falls_back_to_default_when_provider_id_missing() {
    let providers = built_in_model_providers();
    let info = model_with_provider("legacy-model", None);
    let resolved = resolve_provider_for_model(&info, &providers, "openai", false);
    assert_eq!(resolved.wire_api, WireApi::Responses);
}

#[test]
fn falls_back_to_default_when_provider_id_unknown() {
    let providers = built_in_model_providers();
    let info = model_with_provider("x", Some("no-such-provider"));
    let resolved = resolve_provider_for_model(&info, &providers, "openai", false);
    assert_eq!(resolved.wire_api, WireApi::Responses);
}

#[test]
fn falls_back_to_openai_when_default_provider_missing() {
    let providers = built_in_model_providers();
    let info = model_with_provider("legacy-model", None);
    let resolved = resolve_provider_for_model(&info, &providers, "no-such-default", false);
    assert_eq!(resolved.name, "OpenAI");
    assert!(!resolved.name.is_empty());
    assert_eq!(
        resolve_provider_id_for_model(&info, &providers, "no-such-default", false),
        "openai"
    );
}

#[test]
fn id_helper_matches_provider_helper_selection() {
    let providers = built_in_model_providers();
    let info = model_with_provider("glm-5.2", Some("glm"));
    assert_eq!(resolve_provider_id_for_model(&info, &providers, "openai", false), "glm");
    let info = model_with_provider("legacy", None);
    assert_eq!(resolve_provider_id_for_model(&info, &providers, "openai", false), "openai");
    let info = model_with_provider("x", Some("no-such-provider"));
    assert_eq!(resolve_provider_id_for_model(&info, &providers, "openai", false), "openai");
}

#[test]
fn explicit_default_overrides_model_provider_id() {
    let providers = built_in_model_providers();
    let info = model_with_provider("glm-5.2", Some("glm"));
    let resolved = resolve_provider_for_model(&info, &providers, "anthropic", true);
    assert_eq!(resolved.wire_api, WireApi::Anthropic);
    assert_ne!(resolved.base_url.as_deref(), Some("https://open.bigmodel.cn/api/paas/v4"));
    assert_eq!(resolve_provider_id_for_model(&info, &providers, "anthropic", true), "anthropic");
}

#[test]
fn explicit_default_missing_falls_back_to_openai() {
    let providers = built_in_model_providers();
    let info = model_with_provider("glm-5.2", Some("glm"));
    let resolved = resolve_provider_for_model(&info, &providers, "no-such-explicit", true);
    assert_eq!(resolved.name, "OpenAI");
    assert_eq!(
        resolve_provider_id_for_model(&info, &providers, "no-such-explicit", true),
        "openai"
    );
}

#[test]
fn without_openai_the_fallback_is_the_default_provider_info() {
    let info = model_with_provider("m", None);
    let resolved = resolve_provider_for_model(&info, &vec![], "no-such-default", false);
    assert_eq!(resolved, ModelProviderInfo::default());
}

#[test]
fn of_two_providers_with_one_id_the_later_holds() {
    let providers = vec![
        ("p".to_string(), provider("first", None, WireApi::Chat)),
        ("p".to_string(), provider("second", None, WireApi::Gemini)),
    ];
    let info = model_with_provider("m", Some("p"));
    let resolved = resolve_provider_for_model(&info, &providers, "openai", false);
    assert_eq!(resolved.name, "second");
}

#[test]
fn returns_non_empty_template_for_each_wire_api() {
    for wire_api in [WireApi::Responses, WireApi::Chat, WireApi::Anthropic] {
        let text = base_instructions_for(wire_api, "glm-5.2");
        assert!(!text.is_empty());
        assert!(text.contains("TokenCode"));
    }
}

#[test]
fn a_resolved_provider_keeps_all_that_is_configured() {
    let providers = built_in_model_providers();
    let info = model_with_provider("glm-5.2", Some("glm"));
    let resolved = resolve_provider_for_model(&info, &providers, "openai", false);
    assert_eq!(resolved, providers[2].1);
    assert_eq!(resolved.payload, Json::Text("GLM settings".to_string()));
}
