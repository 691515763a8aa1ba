use nanocode::ModelInfo;
use nanocode::ModelPreference;
use nanocode::ModelsCache;
use nanocode::is_cache_valid;
use nanocode::models::resolve_model;
use nanocode::recommend_model;
use nanocode::validate_model;

fn model(id: &str, name: &str, created: &str) -> ModelInfo {
    ModelInfo {
        id: id.to_string(),
        display_name: name.to_string(),
        created_at: created.to_string(),
        model_type: "model".to_string(),
    }
}

#[test]
fn test_recommend_model_performance() {
    let models = vec![
        model("sonnet-4-5", "Sonnet", "2024-01-01"),
        model("opus-4-6", "Opus", "2025-01-01"),
    ];

    let recommended = recommend_model(&models, Some(ModelPreference::Opus));
    assert_eq!(recommended, Some("opus-4-6".to_string()));
}

#[test]
fn test_recommend_model_economy() {
    let models = vec![model("haiku-4-5", "Haiku", "2024-01-01")];

    let recommended = recommend_model(&models, Some(ModelPreference::Haiku));
    assert_eq!(recommended, Some("haiku-4-5".to_string()));
}

#[test]
fn test_recommend_model_balanced() {
    let models = vec![
        model("sonnet-4-5", "Sonnet", "2024-01-01"),
        model("opus-4-6", "Opus", "2025-01-01"),
    ];

    let recommended = recommend_model(&models, Some(ModelPreference::Sonnet));
    assert_eq!(recommended, Some("sonnet-4-5".to_string()));
}

#[test]
fn test_validate_model_valid() {
    let models = vec![model("opus-4-6", "Opus", "2025-01-01")];

    assert!(validate_model("opus-4-6", &models));
    assert!(!validate_model("opus-3-5", &models));
}

#[test]
fn test_recommend_model_fallback() {
    let models = vec![model("opus-4-1", "Opus 4.1", "2024-08-05")];

    let recommended = recommend_model(&models, Some(ModelPreference::Opus));
    assert_eq!(recommended, Some("opus-4-1".to_string()));
}

#[test]
fn test_recommend_model_empty() {
    let models = vec![];
    let recommended = recommend_model(&models, Some(ModelPreference::Opus));
    assert!(recommended.is_none());
}

#[test]
fn recommend_model_accepts_vendor_prefixed_ids() {
    let models = vec![
        model("acme-sonnet-4-5", "Sonnet", "2024-01-01"),
        model("acme-opus-4-6", "Opus", "2025-01-01"),
    ];
    let recommended = recommend_model(&models, Some(ModelPreference::Opus));
    assert_eq!(recommended, Some("acme-opus-4-6".to_string()));

    let not_prefixed = vec![
        model("other", "Other", "2024-01-01"),
        model("acmeopus-4-6", "Odd", "2025-01-01"),
    ];
    let recommended = recommend_model(&not_prefixed, Some(ModelPreference::Opus));
    assert_eq!(recommended, Some("other".to_string()));
}

#[test]
fn recommend_model_defaults_to_opus_preference() {
    let models = vec![
        model("haiku-4-5", "Haiku", "2024-01-01"),
        model("opus-4-6", "Opus", "2025-01-01"),
    ];
    let recommended = recommend_model(&models, None);
    assert_eq!(recommended, Some("opus-4-6".to_string()));
}

#[test]
fn cache_freshness_has_a_one_day_boundary() {
    let cache = ModelsCache {
        models: Vec::new(),
        cached_at: 1_000_000,
    };
    assert!(is_cache_valid(&cache, 1_000_000));
    assert!(is_cache_valid(&cache, 1_000_000 + 86399));
    assert!(!is_cache_valid(&cache, 1_000_000 + 86400));
    assert!(is_cache_valid(&cache, 999_999));
}

#[test]
fn resolve_model_fills_empty_configuration() {
    let models = vec![model("opus-4-6", "Opus", "2025-01-01")];
    assert_eq!(
        resolve_model("", false, None, Some(&models)),
        "opus-4-6"
    );
    assert_eq!(resolve_model("", false, None, None), "opus-4-6");
}

#[test]
fn resolve_model_replaces_unknown_model_when_validating() {
    let models = vec![model("opus-4-6", "Opus", "2025-01-01")];
    assert_eq!(
        resolve_model("made-up", true, None, Some(&models)),
        "opus-4-6"
    );
    assert_eq!(
        resolve_model("opus-4-6", true, None, Some(&models)),
        "opus-4-6"
    );
    assert_eq!(resolve_model("made-up", true, None, None), "made-up");
    assert_eq!(resolve_model("kept-as-is", false, None, None), "kept-as-is");
}
