use nanocode::AppConfig;
use nanocode::ConfigError;
use nanocode::ConfigFileProvider;
use nanocode::EnvVar;
use nanocode::ProviderConfig;
use nanocode::ProviderConfigFile;

fn test_config(api_key: &str) -> ProviderConfig {
    ProviderConfig {
        provider_name: "test".to_string(),
        base_url: "https://api.test.com".to_string(),
        model: "test-model".to_string(),
        api_key: api_key.to_string(),
    }
}

#[test]
fn api_test_provider_config_masked_api_key() {
    let config = test_config("sk-test1234abcd");
    assert_eq!(config.masked_api_key(), "sk-t...abcd");
}

#[test]
fn api_test_provider_config_masked_api_key_short() {
    let config = test_config("short");
    assert_eq!(config.masked_api_key(), "*****");
}

#[test]
fn api_test_provider_config_masked_api_key_empty() {
    let config = test_config("");
    assert_eq!(config.masked_api_key(), "(no key)");
}

#[test]
fn provider_test_provider_config_masked_api_key() {
    let config = test_config("sk-test1234abcd");
    assert_eq!(config.masked_api_key(), "sk-t...abcd");
}

#[test]
fn provider_test_provider_config_masked_api_key_short() {
    let config = test_config("short");
    assert_eq!(config.masked_api_key(), "*****");
}

#[test]
fn provider_test_provider_config_masked_api_key_empty() {
    let config = test_config("");
    assert_eq!(config.masked_api_key(), "(no key)");
}

#[test]
fn test_from_model_string_invalid() {
    let result =
        ProviderConfig::from_model_string("invalid", &AppConfig::default(), &Vec::new(), true);
    assert!(result.is_err());
    let err_msg = result.unwrap_err().message();
    assert!(err_msg.contains("API key is missing") || err_msg.contains("not found"));
}

#[test]
fn test_app_config_default() {
    let config = AppConfig::default();
    assert!(config.model_providers.contains_key("anthropic"));
}

#[test]
fn test_provider_config_file_anthropic() {
    let provider = AppConfig::default()
        .model_providers
        .get("anthropic")
        .cloned()
        .unwrap();

    assert_eq!(
        provider.api_key_env,
        Some("ANTHROPIC_AUTH_TOKEN".to_string())
    );
    assert_eq!(provider.api_key, None);
    assert_eq!(
        provider.base_url,
        Some("https://api.anthropic.com".to_string())
    );
}

#[test]
fn from_model_string_with_provider_prefix() {
    let env = vec![EnvVar {
        name: "ANTHROPIC_AUTH_TOKEN".to_string(),
        value: "sk-secret-key-value".to_string(),
    }];
    let config = ProviderConfig::from_model_string(
        "anthropic/sonnet-4-5",
        &AppConfig::default(),
        &env,
        true,
    )
    .unwrap();
    assert_eq!(config.provider_name, "anthropic");
    assert_eq!(config.model, "sonnet-4-5");
    assert_eq!(config.api_key, "sk-secret-key-value");
    assert_eq!(config.base_url, "https://api.anthropic.com");
}

#[test]
fn from_model_string_unknown_provider() {
    let result = ProviderConfig::from_model_string(
        "nowhere/some-model",
        &AppConfig::default(),
        &Vec::new(),
        false,
    );
    match result.unwrap_err() {
        ConfigError::ProviderNotFound { provider } => assert_eq!(provider, "nowhere"),
        other => panic!("unexpected error {:?}", other),
    }
}

#[test]
fn missing_key_error_names_the_variable() {
    let err = ConfigError::MissingApiKey {
        provider: "anthropic".to_string(),
        env_var: "ANTHROPIC_AUTH_TOKEN".to_string(),
    };
    assert_eq!(
        err.message(),
        "API key is missing for provider 'anthropic'. Set the ANTHROPIC_AUTH_TOKEN environment variable or configure api_key in config file"
    );
}

#[test]
fn load_config_prefers_environment_over_file_key() {
    let file = ProviderConfigFile {
        base_url: None,
        api_key: Some("file-key".to_string()),
        api_key_env: Some("MY_KEY".to_string()),
        default_model: None,
    };
    let provider = ConfigFileProvider::new("p".to_string(), file);

    let env = vec![EnvVar {
        name: "MY_KEY".to_string(),
        value: "env-key".to_string(),
    }];
    let resolved = provider.load_config(&env);
    assert_eq!(resolved.api_key, "env-key");
    assert_eq!(resolved.base_url, "https://api.anthropic.com");
    assert_eq!(resolved.model, "opus-4-5");

    let resolved = provider.load_config(&Vec::new());
    assert_eq!(resolved.api_key, "file-key");
}

#[test]
fn provider_availability_follows_key_sources() {
    let with_file_key = ConfigFileProvider::new(
        "a".to_string(),
        ProviderConfigFile {
            base_url: None,
            api_key: Some("k".to_string()),
            api_key_env: None,
            default_model: None,
        },
    );
    assert!(with_file_key.is_available(&Vec::new()));

    let env_only = ConfigFileProvider::new(
        "b".to_string(),
        ProviderConfigFile {
            base_url: None,
            api_key: None,
            api_key_env: Some("B_KEY".to_string()),
            default_model: None,
        },
    );
    assert!(!env_only.is_available(&Vec::new()));
    let env = vec![EnvVar {
        name: "B_KEY".to_string(),
        value: "x".to_string(),
    }];
    assert!(env_only.is_available(&env));
}

#[test]
fn provider_display_name_maps_known_providers() {
    let mut config = test_config("k");
    config.provider_name = "anthropic".to_string();
    assert_eq!(config.provider_display_name(), "Anthropic");
    config.provider_name = "zhipuai".to_string();
    assert_eq!(config.provider_display_name(), "ZhipuAI");
    config.provider_name = "other".to_string();
    assert_eq!(config.provider_display_name(), "other");
}

#[test]
fn anthropic_config_masks_its_key() {
    let config = nanocode::AnthropicConfig {
        base_url: "https://api.anthropic.com".to_string(),
        model: "opus-4-5".to_string(),
        api_key: "sk-test1234abcd".to_string(),
    };
    assert_eq!(config.masked_api_key(), "sk-t...abcd");
}
