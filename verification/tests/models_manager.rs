//! The model catalog.

use tokencode::models_manager::bundled_models_response;
use tokencode::models_manager::client_version_to_whole;
use tokencode::models_manager::provider_id_for_model;

const CATALOG: &str = r#"{"models":[
    {"slug":"gpt-5.6-sol","provider_id":"openai","priority":1},
    {"slug":"gpt-5.5","priority":2},
    {"slug":"glm-5.2","provider_id":"glm"},
    {"slug":"opus-4-8","provider_id":"anthropic"},
    {"slug":"kimi-k2.6","provider_id":"moonshot"},
    {"slug":"minimax-m3","provider_id":"minimax"}
]}"#;

#[test]
fn provider_id_for_known_cross_vendor_models() {
    assert_eq!(provider_id_for_model(CATALOG, "glm-5.2"), Some("glm".to_string()));
    assert_eq!(provider_id_for_model(CATALOG, "opus-4-8"), Some("anthropic".to_string()));
    assert_eq!(provider_id_for_model(CATALOG, "minimax-m3"), Some("minimax".to_string()));
    assert_eq!(provider_id_for_model(CATALOG, "kimi-k2.6"), Some("moonshot".to_string()));
    assert_eq!(provider_id_for_model(CATALOG, "gpt-5.6-sol"), Some("openai".to_string()));
}

#[test]
fn provider_id_for_legacy_or_unknown_model_is_none() {
    assert_eq!(provider_id_for_model(CATALOG, "gpt-5.5"), None);
    assert_eq!(provider_id_for_model(CATALOG, "does-not-exist"), None);
}

#[test]
fn every_catalog_entry_is_found_by_its_slug() {
    let bundled = bundled_models_response(CATALOG).expect("a catalog");
    assert_eq!(bundled.models.len(), 6);
    for model in bundled.models {
        assert_eq!(provider_id_for_model(CATALOG, &model.slug), model.provider_id);
        assert_eq!(model.payload.text_at("slug"), Some(model.slug));
    }
}

#[test]
fn the_first_entry_of_a_slug_decides() {
    let twice = r#"{"models":[{"slug":"m","provider_id":null},{"slug":"m","provider_id":"p"}]}"#;
    assert_eq!(provider_id_for_model(twice, "m"), None);
    let twice = r#"{"models":[{"slug":"m","provider_id":"p"},{"slug":"m"}]}"#;
    assert_eq!(provider_id_for_model(twice, "m"), Some("p".to_string()));
}

#[test]
fn a_text_without_a_catalog_names_no_provider() {
    for text in [
        "",
        "[]",
        "{}",
        r#"{"models":{}}"#,
        r#"{"models":[{"provider_id":"p"}]}"#,
        r#"{"models":[{"slug":"m","provider_id":"p"},{"slug":"n","provider_id":1}]}"#,
    ] {
        assert!(bundled_models_response(text).is_none(), "{text}");
        assert_eq!(provider_id_for_model(text, "m"), None);
    }
}

#[test]
fn whole_version_has_three_numbers() {
    assert_eq!(client_version_to_whole(), "0.1.0");
}
