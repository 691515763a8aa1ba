//! Model listing, validation and recommendation.
//!
//! The caller fetches the list of available models from the endpoint
//! (and caches it on disk); the logic that validates a configured
//! model, picks a recommendation by preference, and judges the cache's
//! age lives here, over plain values.

use vstd::prelude::*;

use crate::text::str_eq;

verus! {

/// One model the endpoint offers.
#[derive(Debug, Clone)]
pub struct ModelInfo {
    /// The model identifier the API accepts.
    pub id: String,
    /// A human-readable display name.
    pub display_name: String,
    /// The creation timestamp as reported.
    pub created_at: String,
    /// The resource type as reported.
    pub model_type: String,
}

/// Which family to prefer when recommending a model.
#[derive(Debug, Clone, Copy)]
pub enum ModelPreference {
    /// The most capable family.
    Opus,
    /// Speed and capability balanced.
    Sonnet,
    /// The fastest and cheapest family.
    Haiku,
}

/// A model list as cached on disk, with the moment it was written.
#[derive(Debug, Clone)]
pub struct ModelsCache {
    /// The cached models.
    pub models: Vec<ModelInfo>,
    /// Seconds since the epoch when the cache was written.
    pub cached_at: u64,
}

/// Whether a model id occurs in a list.
pub open spec fn has_model(models: Seq<ModelInfo>, id: Seq<char>) -> bool {
    exists|i: int| 0 <= i < models.len() && models[i].id@ == id
}

/// Whether a configured model id exists in the available list.
pub fn validate_model(model_id: &str, available_models: &[ModelInfo]) -> (r: bool)
    ensures
        r == has_model(available_models@, model_id@),
{
    let n: usize = available_models.len();
    let mut i: usize = 0;
    while i < n
        invariant
            n == available_models@.len(),
            0 <= i <= n,
            forall|k: int| 0 <= k < i ==> available_models@[k].id@ != model_id@,
        decreases n - i,
    {
        if str_eq(available_models[i].id.as_str(), model_id) {
            proof {
                assert(available_models@[i as int].id@ == model_id@);
            }
            return true;
        }
        i = i + 1;
    }
    false
}

/// The id families tried for a preference, most preferred first.
pub open spec fn priority_ids(pref: ModelPreference) -> Seq<Seq<char>> {
    match pref {
        ModelPreference::Opus => seq!["opus-4-6"@, "opus-4-5"@, "sonnet-4-5"@],
        ModelPreference::Sonnet => seq![
            "sonnet-4-5"@,
            "opus-4-6"@,
            "haiku-4-5"@,
        ],
        ModelPreference::Haiku => seq![
            "haiku-4-5"@,
            "sonnet-4-5"@,
            "opus-4-5"@,
        ],
    }
}

/// Whether a model id answers to a family id: exactly, or as a
/// vendor-prefixed form of it (a prefix ending in `-` before the
/// family id).
pub open spec fn id_matches(id: Seq<char>, entry: Seq<char>) -> bool {
    ||| id == entry
    ||| (id.len() > entry.len() && id.skip(id.len() - entry.len()) == entry && id[id.len()
        - entry.len() - 1] == '-')
}

/// The first available id answering to a family id.
pub open spec fn first_match(models: Seq<ModelInfo>, entry: Seq<char>) -> Option<Seq<char>>
    decreases models.len(),
{
    if models.len() == 0 {
        None
    } else if id_matches(models[0].id@, entry) {
        Some(models[0].id@)
    } else {
        first_match(models.drop_first(), entry)
    }
}

/// The first priority entry some available model answers to, as that
/// model's own id.
pub open spec fn first_priority(prio: Seq<Seq<char>>, models: Seq<ModelInfo>) -> Option<Seq<char>>
    decreases prio.len(),
{
    if prio.len() == 0 {
        None
    } else {
        match first_match(models, prio[0]) {
            Some(id) => Some(id),
            None => first_priority(prio.drop_first(), models),
        }
    }
}

/// Whether an id answers to a family id.
fn matches_entry(id: &str, entry: &str) -> (r: bool)
    ensures
        r == id_matches(id@, entry@),
{
    if str_eq(id, entry) {
        return true;
    }
    let n: usize = id.unicode_len();
    let m: usize = entry.unicode_len();
    if n > m && id.get_char(n - m - 1) == '-' {
        let suffix: &str = id.substring_char(n - m, n);
        str_eq(suffix, entry)
    } else {
        false
    }
}

/// Find the first available model answering to a family id.
fn find_match(models: &[ModelInfo], entry: &str) -> (r: Option<String>)
    ensures
        opt_string_text(r) == first_match(models@, entry@),
{
    let n: usize = models.len();
    let mut i: usize = 0;
    proof {
        assert(models@.skip(0) =~= models@);
    }
    while i < n
        invariant
            n == models@.len(),
            0 <= i <= n,
            first_match(models@, entry@) == first_match(models@.skip(i as int), entry@),
        decreases n - i,
    {
        proof {
            assert(models@.skip(i as int)[0] == models@[i as int]);
            assert(models@.skip(i as int).drop_first() =~= models@.skip(i as int + 1));
        }
        if matches_entry(models[i].id.as_str(), entry) {
            return Some(models[i].id.clone());
        }
        i = i + 1;
    }
    proof {
        assert(models@.skip(n as int) =~= Seq::<ModelInfo>::empty());
    }
    None
}

/// The recommendation: the first preferred family some available
/// model answers to (as that model's own id), then the first
/// available model at all, then nothing.
pub open spec fn recommend_spec(models: Seq<ModelInfo>, pref: Option<ModelPreference>) -> Option<
    Seq<char>,
> {
    let p = match pref {
        Some(p) => p,
        None => ModelPreference::Opus,
    };
    match first_priority(priority_ids(p), models) {
        Some(id) => Some(id),
        None => if models.len() > 0 {
            Some(models[0].id@)
        } else {
            None
        },
    }
}

/// The image of an optional owned string.
pub open spec fn opt_string_text(o: Option<String>) -> Option<Seq<char>> {
    match o {
        Some(s) => Some(s@),
        None => None,
    }
}

/// Recommend the best available model for a preference, defaulting to
/// the most capable family: the first listed family some available
/// model answers to, returned as that model's own id, then the first
/// available model at all.
pub fn recommend_model(available_models: &[ModelInfo], preference: Option<ModelPreference>) -> (r:
    Option<String>)
    ensures
        opt_string_text(r) == recommend_spec(available_models@, preference),
{
    let pref: ModelPreference = match preference {
        Some(p) => p,
        None => ModelPreference::Opus,
    };
    let first: &'static str;
    let second: &'static str;
    let third: &'static str;
    match pref {
        ModelPreference::Opus => {
            first = "opus-4-6";
            second = "opus-4-5";
            third = "sonnet-4-5";
        },
        ModelPreference::Sonnet => {
            first = "sonnet-4-5";
            second = "opus-4-6";
            third = "haiku-4-5";
        },
        ModelPreference::Haiku => {
            first = "haiku-4-5";
            second = "sonnet-4-5";
            third = "opus-4-5";
        },
    }
    proof {
        assert(priority_ids(pref) =~= seq![first@, second@, third@]);
        assert(priority_ids(pref).drop_first() =~= seq![second@, third@]);
        assert(seq![second@, third@].drop_first() =~= seq![third@]);
        assert(seq![third@].drop_first() =~= Seq::<Seq<char>>::empty());
    }
    let ghost prio = priority_ids(pref);
    let ghost avail = available_models@;
    match find_match(available_models, first) {
        Some(id) => {
            return Some(id);
        },
        None => {
        },
    }
    proof {
        assert(first_priority(prio, avail) == first_priority(seq![second@, third@], avail));
    }
    match find_match(available_models, second) {
        Some(id) => {
            proof {
                assert(first_priority(seq![second@, third@], avail) == first_match(
                    avail,
                    second@,
                ));
            }
            return Some(id);
        },
        None => {
        },
    }
    proof {
        assert(first_priority(seq![second@, third@], avail) == first_priority(seq![third@], avail));
    }
    match find_match(available_models, third) {
        Some(id) => {
            proof {
                assert(first_priority(seq![third@], avail) == first_match(avail, third@));
            }
            return Some(id);
        },
        None => {
        },
    }
    proof {
        assert(first_priority(seq![third@], avail) == first_priority(
            Seq::<Seq<char>>::empty(),
            avail,
        ));
        assert(first_priority(Seq::<Seq<char>>::empty(), avail) is None);
    }
    if available_models.len() > 0 {
        Some(available_models[0].id.clone())
    } else {
        None
    }
}

/// The model the process falls back to when nothing else decides.
pub open spec fn fallback_model() -> Seq<char> {
    "opus-4-6"@
}

/// The model finally used, given the configured value, whether
/// validation was asked for, and what the fetch of available models
/// returned (None when it was skipped or failed).
pub open spec fn resolve_model_spec(
    configured: Seq<char>,
    should_validate: bool,
    pref: Option<ModelPreference>,
    fetched: Option<Seq<ModelInfo>>,
) -> Seq<char> {
    if configured.len() == 0 || should_validate {
        match fetched {
            Some(models) => if configured.len() == 0 {
                match recommend_spec(models, pref) {
                    Some(id) => id,
                    None => fallback_model(),
                }
            } else if !has_model(models, configured) {
                match recommend_spec(models, pref) {
                    Some(id) => id,
                    None => configured,
                }
            } else {
                configured
            },
            None => if configured.len() == 0 {
                fallback_model()
            } else {
                configured
            },
        }
    } else if configured.len() == 0 {
        fallback_model()
    } else {
        configured
    }
}

/// Decide the model to use. An empty configured model is filled by
/// the recommendation or the built-in fallback; with validation on, a
/// configured model the endpoint does not offer is replaced by the
/// recommendation; when the model list could not be fetched, the
/// configured value stands.
pub fn resolve_model(
    configured: &str,
    should_validate: bool,
    preference: Option<ModelPreference>,
    fetched: Option<&Vec<ModelInfo>>,
) -> (r: String)
    ensures
        r@ == resolve_model_spec(
            configured@,
            should_validate,
            preference,
            match fetched {
                Some(m) => Some(m@),
                None => None,
            },
        ),
{
    if configured.is_empty() || should_validate {
        match fetched {
            Some(models) => {
                if configured.is_empty() {
                    match recommend_model(models.as_slice(), preference) {
                        Some(id) => id,
                        None => "opus-4-6".to_owned(),
                    }
                } else if !validate_model(configured, models.as_slice()) {
                    match recommend_model(models.as_slice(), preference) {
                        Some(id) => id,
                        None => configured.to_owned(),
                    }
                } else {
                    configured.to_owned()
                }
            },
            None => if configured.is_empty() {
                "opus-4-6".to_owned()
            } else {
                configured.to_owned()
            },
        }
    } else if configured.is_empty() {
        "opus-4-6".to_owned()
    } else {
        configured.to_owned()
    }
}

/// How long a cached model list stays fresh, in seconds.
pub open spec fn cache_ttl_secs() -> u64 {
    86400
}

/// Whether a cache written at `cache.cached_at` is still fresh at
/// `now_secs`, a day at most after it was written; a cache from the
/// future counts as fresh.
pub fn is_cache_valid(cache: &ModelsCache, now_secs: u64) -> (r: bool)
    ensures
        r == ((if now_secs >= cache.cached_at {
            now_secs - cache.cached_at
        } else {
            0
        }) < cache_ttl_secs()),
{
    let age: u64 = if now_secs >= cache.cached_at {
        now_secs - cache.cached_at
    } else {
        0
    };
    age < 86400
}

} // verus!
