//! Application configuration data.
//!
//! The caller reads the configuration file and the environment; the
//! types and the merging rules live here, over plain values.

use std::collections::HashMap;
use vstd::prelude::*;

verus! {

/// General application settings.
#[derive(Debug, Clone)]
pub struct GeneralConfig {
    /// The provider to use when none is named, if configured.
    pub active_provider: Option<String>,
}

/// One provider's entry in the configuration file.
#[derive(Debug, Clone)]
pub struct ProviderConfigFile {
    /// The API base URL.
    pub base_url: Option<String>,
    /// A key given directly in the file.
    pub api_key: Option<String>,
    /// The environment variable that overrides the key.
    pub api_key_env: Option<String>,
    /// The model used when none is named.
    pub default_model: Option<String>,
}

/// The application configuration: general settings and the providers
/// known by name.
#[derive(Debug, Clone)]
pub struct AppConfig {
    /// General settings.
    pub general: GeneralConfig,
    /// Provider configurations by provider name.
    pub model_providers: HashMap<String, ProviderConfigFile>,
}

impl AppConfig {
    /// The built-in provider configurations that every run starts
    /// from: the default endpoint, keyed from the environment.
    pub fn builtin_providers() -> HashMap<String, ProviderConfigFile> {
        let mut providers: HashMap<String, ProviderConfigFile> = HashMap::new();
        providers.insert(
            "anthropic".to_owned(),
            ProviderConfigFile {
                base_url: Some("https://api.anthropic.com".to_owned()),
                api_key: None,
                api_key_env: Some("ANTHROPIC_AUTH_TOKEN".to_owned()),
                default_model: Some("opus-4-5".to_owned()),
            },
        );
        providers
    }

    /// Look one provider's file configuration up by name.
    pub fn get_provider_config(&self, name: &str) -> Option<&ProviderConfigFile> {
        self.model_providers.get(name)
    }

    /// The provider used when a model string names none: the
    /// configured active provider, or the built-in default.
    pub fn get_default_model_provider(&self) -> (r: &str)
        ensures
            match self.general.active_provider {
                Some(p) => r@ == p@,
                None => r@ == "anthropic"@,
            },
    {
        match &self.general.active_provider {
            Some(p) => p.as_str(),
            None => "anthropic",
        }
    }
}

impl Default for AppConfig {
    /// The configuration before any file is read: no active provider
    /// pinned, built-in providers only.
    fn default() -> (r: AppConfig)
        ensures
            r.general.active_provider is None,
    {
        AppConfig {
            general: GeneralConfig { active_provider: None },
            model_providers: AppConfig::builtin_providers(),
        }
    }
}

/// Process-level configuration.
#[derive(Debug, Clone)]
pub struct Config {
    /// The current working directory, as shown to the model.
    pub cwd: String,
}

} // verus!
