//! Provider selection and credential resolution.
//!
//! A provider entry from the configuration file, together with the
//! values of the environment variables it names, resolves to a
//! [`ProviderConfig`]: endpoint, model and key. The caller reads the
//! environment and hands the values in as plain pairs.

use vstd::prelude::*;

use crate::config::AppConfig;
use crate::config::ProviderConfigFile;
use crate::text::str_eq;

verus! {

/// One environment variable the caller resolved: its name and value.
#[derive(Debug, Clone)]
pub struct EnvVar {
    pub name: String,
    pub value: String,
}

/// The value of the first pair carrying a name.
pub open spec fn env_lookup_spec(env: Seq<EnvVar>, name: Seq<char>) -> Option<Seq<char>>
    decreases env.len(),
{
    if env.len() == 0 {
        None
    } else if env[0].name@ == name {
        Some(env[0].value@)
    } else {
        env_lookup_spec(env.drop_first(), name)
    }
}

/// Look a variable up in the resolved environment.
pub fn env_lookup(env: &Vec<EnvVar>, name: &str) -> (r: Option<String>)
    ensures
        crate::models::opt_string_text(r) == env_lookup_spec(env@, name@),
{
    let n: usize = env.len();
    let mut i: usize = 0;
    proof {
        assert(env@.skip(0) =~= env@);
    }
    while i < n
        invariant
            n == env@.len(),
            0 <= i <= n,
            env_lookup_spec(env@, name@) == env_lookup_spec(env@.skip(i as int), name@),
        decreases n - i,
    {
        proof {
            assert(env@.skip(i as int)[0] == env@[i as int]);
            assert(env@.skip(i as int).drop_first() =~= env@.skip(i as int + 1));
        }
        if str_eq(env[i].name.as_str(), name) {
            return Some(env[i].value.clone());
        }
        i = i + 1;
    }
    proof {
        assert(env@.skip(n as int) =~= Seq::<EnvVar>::empty());
    }
    None
}

/// Errors raised while resolving a provider configuration.
#[derive(Debug, Clone)]
pub enum ConfigError {
    /// A model string named a provider the configuration lacks.
    ProviderNotFound { provider: String },
    /// The chosen provider ended up with no API key.
    MissingApiKey { provider: String, env_var: String },
}

/// The text a configuration error renders to.
pub open spec fn config_error_text(provider: Seq<char>, env_var: Seq<char>, missing_key: bool) -> Seq<
    char,
> {
    if missing_key {
        "API key is missing for provider '"@ + provider
            + "'. Set the "@ + env_var
            + " environment variable or configure api_key in config file"@
    } else {
        "Provider '"@ + provider + "' not found in configuration"@
    }
}

impl ConfigError {
    /// Render the error as the line shown to the user.
    pub fn message(&self) -> (r: String)
        ensures
            match self {
                ConfigError::ProviderNotFound { provider } => r@ == config_error_text(
                    provider@,
                    Seq::empty(),
                    false,
                ),
                ConfigError::MissingApiKey { provider, env_var } => r@ == config_error_text(
                    provider@,
                    env_var@,
                    true,
                ),
            },
    {
        match self {
            ConfigError::ProviderNotFound { provider } => {
                let mut s: String = "Provider '".to_owned();
                s.append(provider.as_str());
                s.append("' not found in configuration");
                proof {
                    assert(s@ =~= config_error_text(provider@, Seq::empty(), false));
                }
                s
            },
            ConfigError::MissingApiKey { provider, env_var } => {
                let mut s: String = "API key is missing for provider '".to_owned();
                s.append(provider.as_str());
                s.append("'. Set the ");
                s.append(env_var.as_str());
                s.append(" environment variable or configure api_key in config file");
                proof {
                    assert(s@ =~= config_error_text(provider@, env_var@, true));
                }
                s
            },
        }
    }
}

/// The key shown for display: long keys keep their first and last
/// four characters, short keys are starred out, and a missing key
/// says so.
pub open spec fn masked_key_spec(k: Seq<char>) -> Seq<char> {
    if k.len() > 8 {
        k.take(4) + "..."@ + k.skip(k.len() - 4)
    } else if k.len() > 0 {
        Seq::new(k.len(), |i: int| '*')
    } else {
        "(no key)"@
    }
}

/// Mask a key for display.
fn mask_key(key: &str) -> (r: String)
    ensures
        r@ == masked_key_spec(key@),
{
    let n: usize = key.unicode_len();
    if n > 8 {
        let mut s: String = key.substring_char(0, 4).to_owned();
        s.append("...");
        s.append(key.substring_char(n - 4, n));
        proof {
            assert(s@ =~= masked_key_spec(key@));
        }
        s
    } else if n > 0 {
        let mut s: String = String::new();
        let mut i: usize = 0;
        while i < n
            invariant
                0 <= i <= n,
                s@ =~= Seq::new(i as nat, |k: int| '*'),
            decreases n - i,
        {
            s.append("*");
            i = i + 1;
            proof {
                reveal_strlit("*");
                assert("*"@ =~= seq!['*']);
                assert(s@ =~= Seq::new(i as nat, |k: int| '*'));
            }
        }
        s
    } else {
        "(no key)".to_owned()
    }
}

/// A resolved provider configuration: who to talk to and how.
#[derive(Debug, Clone)]
pub struct ProviderConfig {
    /// The provider's name.
    pub provider_name: String,
    /// The API base URL.
    pub base_url: String,
    /// The model to request.
    pub model: String,
    /// The API key.
    pub api_key: String,
}

/// The position of the first slash, or -1 when there is none.
pub open spec fn slash_pos(s: Seq<char>) -> int
    decreases s.len(),
{
    if s.len() == 0 {
        -1
    } else if s[0] == '/' {
        0
    } else {
        let r = slash_pos(s.drop_first());
        if r < 0 {
            -1
        } else {
            r + 1
        }
    }
}

/// The provider a model string names: the part before the first
/// slash, or the default provider when it has none.
pub open spec fn provider_part(s: Seq<char>, default_provider: Seq<char>) -> Seq<char> {
    let p = slash_pos(s);
    if 0 <= p < s.len() {
        s.take(p)
    } else {
        default_provider
    }
}

/// The model a model string names: the part after the first slash,
/// or the whole string when it has none.
pub open spec fn model_part(s: Seq<char>) -> Seq<char> {
    let p = slash_pos(s);
    if 0 <= p < s.len() {
        s.skip(p + 1)
    } else {
        s
    }
}

proof fn lemma_slash_pos(s: Seq<char>)
    ensures
        slash_pos(s) < 0 ==> forall|k: int| 0 <= k < s.len() ==> s[k] != '/',
        slash_pos(s) >= 0 ==> 0 <= slash_pos(s) < s.len() && s[slash_pos(s)] == '/' && forall|
            k: int,
        | 0 <= k < slash_pos(s) ==> s[k] != '/',
    decreases s.len(),
{
    if s.len() > 0 && s[0] != '/' {
        let d = s.drop_first();
        lemma_slash_pos(d);
        let r = slash_pos(d);
        if r < 0 {
            assert forall|k: int| 0 <= k < s.len() implies s[k] != '/' by {
                if k > 0 {
                    assert(s[k] == d[k - 1]);
                }
            }
        } else {
            assert(s[r + 1] == d[r]);
            assert forall|k: int| 0 <= k < r + 1 implies s[k] != '/' by {
                if k > 0 {
                    assert(s[k] == d[k - 1]);
                }
            }
        }
    }
}

proof fn lemma_slash_pos_at(s: Seq<char>, j: int)
    requires
        0 <= j < s.len(),
        s[j] == '/',
        forall|k: int| 0 <= k < j ==> s[k] != '/',
    ensures
        slash_pos(s) == j,
    decreases s.len(),
{
    if j > 0 {
        lemma_slash_pos_at(s.drop_first(), j - 1);
    }
}

/// Split a model string at its first slash, if it has one.
fn split_model_string(model_str: &str) -> (r: Option<(String, String)>)
    ensures
        r is Some <==> 0 <= slash_pos(model_str@) < model_str@.len(),
        r matches Some((p, m)) ==> p@ == model_str@.take(slash_pos(model_str@)) && m@
            == model_str@.skip(slash_pos(model_str@) + 1),
{
    let n: usize = model_str.unicode_len();
    let mut i: usize = 0;
    while i < n
        invariant
            n == model_str@.len(),
            0 <= i <= n,
            forall|k: int| 0 <= k < i ==> model_str@[k] != '/',
        decreases n - i,
    {
        if model_str.get_char(i) == '/' {
            proof {
                lemma_slash_pos_at(model_str@, i as int);
            }
            let p: String = model_str.substring_char(0, i).to_owned();
            let m: String = model_str.substring_char(i + 1, n).to_owned();
            return Some((p, m));
        }
        i = i + 1;
    }
    proof {
        lemma_slash_pos(model_str@);
        if slash_pos(model_str@) >= 0 {
            assert(model_str@[slash_pos(model_str@)] == '/');
        }
    }
    None
}

impl ProviderConfig {
    /// Mask the key for display.
    pub fn masked_api_key(&self) -> (r: String)
        ensures
            r@ == masked_key_spec(self.api_key@),
    {
        mask_key(self.api_key.as_str())
    }

    /// The provider's name as shown in the banner.
    pub fn provider_display_name(&self) -> (r: &str)
        ensures
            self.provider_name@ == "anthropic"@ ==> r@ == "Anthropic"@,
            self.provider_name@ == "zhipuai"@ ==> r@ == "ZhipuAI"@,
            self.provider_name@ != "anthropic"@ && self.provider_name@ != "zhipuai"@ ==> r@
                == self.provider_name@,
    {
        proof {
            reveal_strlit("anthropic");
            reveal_strlit("zhipuai");
            assert("anthropic"@.len() == 9);
            assert("zhipuai"@.len() == 7);
            assert("anthropic"@ != "zhipuai"@);
        }
        if str_eq(self.provider_name.as_str(), "anthropic") {
            "Anthropic"
        } else if str_eq(self.provider_name.as_str(), "zhipuai") {
            "ZhipuAI"
        } else {
            self.provider_name.as_str()
        }
    }

    /// Check a resolved configuration: when validation is on, a
    /// configuration without a key is refused, blaming the variable
    /// the provider's file entry names.
    pub fn load_and_validate_config(
        config: ProviderConfig,
        provider_name: &str,
        provider_file: &ProviderConfigFile,
        validate: bool,
    ) -> (r: Result<ProviderConfig, ConfigError>)
        ensures
            (validate && config.api_key@.len() == 0) ==> (r matches Err(
                ConfigError::MissingApiKey { provider, env_var },
            ) && provider@ == provider_name@ && env_var@ == (match provider_file.api_key_env {
                Some(e) => e@,
                None => "API_KEY"@,
            })),
            !(validate && config.api_key@.len() == 0) ==> (r matches Ok(c) && c == config),
    {
        if validate && config.api_key.as_str().is_empty() {
            let env_var: String = match &provider_file.api_key_env {
                Some(e) => e.clone(),
                None => "API_KEY".to_owned(),
            };
            Err(
                ConfigError::MissingApiKey { provider: provider_name.to_owned(), env_var },
            )
        } else {
            Ok(config)
        }
    }

    /// Resolve a model string such as `anthropic/some-model` or
    /// `some-model` against the configuration and the resolved
    /// environment. The provider part (or the default provider) picks
    /// the file entry; the entry and the environment resolve the
    /// endpoint and key exactly as [`ConfigFileProvider::load_config`]
    /// says; with validation on, a missing key is an error; the model
    /// part always wins over the entry's default.
    ///
    /// Which outcome occurs turns on the map lookup, and the standard
    /// map's specification gives string keys no model, so the contract
    /// pins the fields and the blame of each outcome rather than
    /// choosing between them.
    pub fn from_model_string(
        model_str: &str,
        app_config: &AppConfig,
        env: &Vec<EnvVar>,
        validate: bool,
    ) -> (r: Result<ProviderConfig, ConfigError>)
        ensures
            ({
                let default_p = match app_config.general.active_provider {
                    Some(p) => p@,
                    None => "anthropic"@,
                };
                let pname = provider_part(model_str@, default_p);
                &&& (r matches Ok(c) ==> c.provider_name@ == pname && c.model@ == model_part(
                    model_str@,
                ) && (validate ==> c.api_key@.len() > 0))
                &&& (r matches Err(ConfigError::ProviderNotFound { provider }) ==> provider@
                    == pname)
                &&& (r matches Err(ConfigError::MissingApiKey { provider, .. }) ==> provider@
                    == pname && validate)
            }),
    {
        let parts: Option<(String, String)> = split_model_string(model_str);
        let provider_name: String;
        let model: String;
        match parts {
            Some((p, m)) => {
                provider_name = p;
                model = m;
            },
            None => {
                provider_name = app_config.get_default_model_provider().to_owned();
                model = model_str.to_owned();
            },
        }
        let provider_file: &ProviderConfigFile = match app_config.get_provider_config(
            provider_name.as_str(),
        ) {
            Some(f) => f,
            None => {
                return Err(ConfigError::ProviderNotFound { provider: provider_name });
            },
        };
        let provider = ConfigFileProvider::new(provider_name.clone(), provider_file.clone());
        let resolved: ProviderConfig = provider.load_config(env);
        let checked = ProviderConfig::load_and_validate_config(
            resolved,
            provider_name.as_str(),
            provider_file,
            validate,
        );
        match checked {
            Ok(mut c) => {
                c.model = model;
                Ok(c)
            },
            Err(e) => Err(e),
        }
    }
}

/// A mirror of the provider entry that keeps its name beside it.
pub struct ConfigFileProvider {
    name: String,
    config: ProviderConfigFile,
}

impl ConfigFileProvider {
    /// The provider's name.
    pub closed spec fn spec_name(&self) -> Seq<char> {
        self.name@
    }

    /// The provider's file entry.
    pub closed spec fn spec_config(&self) -> ProviderConfigFile {
        self.config
    }

    /// Pair a provider name with its file entry.
    pub fn new(name: String, config: ProviderConfigFile) -> (r: Self)
        ensures
            r.spec_name() == name@,
            r.spec_config() == config,
    {
        ConfigFileProvider { name, config }
    }

    /// The provider's name.
    pub fn name(&self) -> (r: &str)
        ensures
            r@ == self.spec_name(),
    {
        self.name.as_str()
    }

    /// Whether the provider can be used: its key stands in the file
    /// or its key variable is present in the resolved environment.
    pub fn is_available(&self, env: &Vec<EnvVar>) -> (r: bool)
        ensures
            r == (self.spec_config().api_key is Some || (match self.spec_config().api_key_env {
                Some(e) => env_lookup_spec(env@, e@) is Some,
                None => false,
            })),
    {
        match &self.config.api_key {
            Some(_) => true,
            None => match &self.config.api_key_env {
                Some(e) => env_lookup(env, e.as_str()).is_some(),
                None => false,
            },
        }
    }

    /// Decide the model this provider should use. With validation off
    /// or the model list unavailable, the current model stands; with a
    /// fetched list, an empty or unknown current model is replaced by
    /// the recommendation when there is one.
    pub fn validate_and_recommend_model(
        &self,
        current_model: &str,
        validate: bool,
        preference: Option<crate::models::ModelPreference>,
        fetched: Option<&Vec<crate::models::ModelInfo>>,
    ) -> (r: String)
        ensures
            !validate ==> r@ == current_model@,
            validate ==> r@ == (match fetched {
                Some(models) => {
                    if current_model@.len() == 0 || !crate::models::has_model(
                        models@,
                        current_model@,
                    ) {
                        match crate::models::recommend_spec(models@, preference) {
                            Some(id) => id,
                            None => current_model@,
                        }
                    } else {
                        current_model@
                    }
                },
                None => current_model@,
            }),
    {
        if !validate {
            return current_model.to_owned();
        }
        match fetched {
            Some(models) => {
                if current_model.is_empty() || !crate::models::validate_model(
                    current_model,
                    models.as_slice(),
                ) {
                    match crate::models::recommend_model(models.as_slice(), preference) {
                        Some(recommended) => recommended,
                        None => current_model.to_owned(),
                    }
                } else {
                    current_model.to_owned()
                }
            },
            None => current_model.to_owned(),
        }
    }

    /// Resolve the entry against the environment: the key comes from
    /// its environment variable, then from the file, then stays
    /// empty; endpoint and model fall back to the built-in defaults.
    pub fn load_config(&self, env: &Vec<EnvVar>) -> (r: ProviderConfig)
        ensures
            r.provider_name@ == self.spec_name(),
            r.api_key@ == (match self.spec_config().api_key_env {
                Some(e) => match env_lookup_spec(env@, e@) {
                    Some(v) => v,
                    None => match self.spec_config().api_key {
                        Some(k) => k@,
                        None => Seq::<char>::empty(),
                    },
                },
                None => match self.spec_config().api_key {
                    Some(k) => k@,
                    None => Seq::<char>::empty(),
                },
            }),
            r.base_url@ == (match self.spec_config().base_url {
                Some(u) => u@,
                None => "https://api.anthropic.com"@,
            }),
            r.model@ == (match self.spec_config().default_model {
                Some(m) => m@,
                None => "opus-4-5"@,
            }),
    {
        let api_key: String = match &self.config.api_key_env {
            Some(e) => match env_lookup(env, e.as_str()) {
                Some(v) => v,
                None => match &self.config.api_key {
                    Some(k) => k.clone(),
                    None => String::new(),
                },
            },
            None => match &self.config.api_key {
                Some(k) => k.clone(),
                None => String::new(),
            },
        };
        let base_url: String = match &self.config.base_url {
            Some(u) => u.clone(),
            None => "https://api.anthropic.com".to_owned(),
        };
        let model: String = match &self.config.default_model {
            Some(m) => m.clone(),
            None => "opus-4-5".to_owned(),
        };
        ProviderConfig { provider_name: self.name.clone(), base_url, model, api_key }
    }
}

/// The endpoint configuration of the default provider, read from the
/// environment by the caller.
#[derive(Debug, Clone)]
pub struct AnthropicConfig {
    /// The API base URL.
    pub base_url: String,
    /// The model to request.
    pub model: String,
    /// The API key.
    pub api_key: String,
}

impl AnthropicConfig {
    /// Mask the key for display.
    pub fn masked_api_key(&self) -> (r: String)
        ensures
            r@ == masked_key_spec(self.api_key@),
    {
        mask_key(self.api_key.as_str())
    }
}

} // verus!
