//! Configuration validation.
//!
//! Validates a resolved config for required fields and consistency.
use vstd::prelude::*;

use crate::config::{ProviderConfig, ResolvedConfig};
use crate::text::{chars_of, push_str, string_from_chars};

verus! {

/// Validation error.
#[derive(Clone, Debug)]
pub enum ConfigError {
    NoProvider,
    InvalidDefaultProvider(String),
    MissingField { provider: String, field: String },
}

/// A validation error, with texts as character sequences.
pub enum ConfigErrorView {
    NoProvider,
    InvalidDefaultProvider(Seq<char>),
    MissingField(Seq<char>, Seq<char>),
}

pub open spec fn config_error_view(e: ConfigError) -> ConfigErrorView {
    match e {
        ConfigError::NoProvider => ConfigErrorView::NoProvider,
        ConfigError::InvalidDefaultProvider(p) => ConfigErrorView::InvalidDefaultProvider(p@),
        ConfigError::MissingField { provider, field } => ConfigErrorView::MissingField(provider@, field@),
    }
}

pub open spec fn config_error_views(es: Seq<ConfigError>) -> Seq<ConfigErrorView> {
    es.map_values(|e: ConfigError| config_error_view(e))
}

/// The text that describes a validation error.
pub open spec fn config_error_text(e: ConfigErrorView) -> Seq<char> {
    match e {
        ConfigErrorView::NoProvider => "No provider configured. Run `nexus --setup` to get started."@,
        ConfigErrorView::InvalidDefaultProvider(p) => "Default provider '"@ + p
            + "' is not configured in providers list."@,
        ConfigErrorView::MissingField(provider, field) => "Provider '"@ + provider
            + "' is missing required field: "@ + field,
    }
}

impl ConfigError {
    /// The text that describes this error.
    pub fn describe(&self) -> (r: String)
        ensures
            r@ == config_error_text(config_error_view(*self)),
    {
        match self {
            ConfigError::NoProvider => "No provider configured. Run `nexus --setup` to get started.".to_owned(),
            ConfigError::InvalidDefaultProvider(p) => {
                let mut v = chars_of("Default provider '");
                push_str(&mut v, p.as_str());
                push_str(&mut v, "' is not configured in providers list.");
                string_from_chars(v.as_slice())
            },
            ConfigError::MissingField { provider, field } => {
                let mut v = chars_of("Provider '");
                push_str(&mut v, provider.as_str());
                push_str(&mut v, "' is missing required field: ");
                push_str(&mut v, field.as_str());
                string_from_chars(v.as_slice())
            },
        }
    }
}

/// One error for each provider, in order, that has no default model.
pub open spec fn missing_models(ps: Seq<(Seq<char>, ProviderConfig)>) -> Seq<ConfigErrorView>
    decreases ps.len(),
{
    if ps.len() == 0 {
        Seq::empty()
    } else {
        missing_models(ps.drop_last()) + if ps.last().1.default_model@.len() == 0 {
            seq![ConfigErrorView::MissingField(ps.last().0, "default_model"@)]
        } else {
            Seq::empty()
        }
    }
}

/// Everything that is wrong with a configuration.
pub open spec fn config_errors(c: ResolvedConfig) -> Seq<ConfigErrorView> {
    if c.providers.pairs().len() == 0 {
        seq![ConfigErrorView::NoProvider]
    } else {
        (if c.default_provider@.len() > 0 && !c.providers@.contains_key(c.default_provider@) {
            seq![ConfigErrorView::InvalidDefaultProvider(c.default_provider@)]
        } else {
            Seq::empty()
        }) + missing_models(c.providers.pairs())
    }
}

/// Validate the resolved configuration: `Ok` when nothing is wrong,
/// otherwise every error found.
pub fn validate(config: &ResolvedConfig) -> (r: Result<(), Vec<ConfigError>>)
    ensures
        match r {
            Ok(()) => config_errors(*config).len() == 0,
            Err(es) => es@.len() > 0 && config_error_views(es@) == config_errors(*config),
        },
{
    let mut errors: Vec<ConfigError> = Vec::new();
    if config.providers.is_empty() {
        errors.push(ConfigError::NoProvider);
        assert(config_error_views(errors@) =~= config_errors(*config));
        return Err(errors);
    }
    if !config.default_provider.as_str().is_empty() && !config.providers.contains_key(config.default_provider.as_str()) {
        errors.push(ConfigError::InvalidDefaultProvider(config.default_provider.clone()));
    }
    let ghost lead = config_error_views(errors@);
    let entries = config.providers.entries();
    let ghost ps = config.providers.pairs();
    let mut i: usize = 0;
    assert(ps.subrange(0, 0) =~= Seq::<(Seq<char>, ProviderConfig)>::empty());
    assert(config_error_views(errors@) =~= lead + missing_models(ps.subrange(0, 0)));
    while i < entries.len()
        invariant
            i <= entries@.len(),
            ps == config.providers.pairs(),
            entries@.map_values(|e: (String, ProviderConfig)| (e.0@, e.1)) == ps,
            config_error_views(errors@) == lead + missing_models(ps.subrange(0, i as int)),
        decreases entries@.len() - i,
    {
        assert(ps.subrange(0, i + 1).drop_last() =~= ps.subrange(0, i as int));
        assert(ps[i as int] == (entries@[i as int].0@, entries@[i as int].1));
        if entries[i].1.default_model.as_str().is_empty() {
            let ghost before = config_error_views(errors@);
            let e = ConfigError::MissingField { provider: entries[i].0.clone(), field: "default_model".to_owned() };
            errors.push(e);
            assert(config_error_views(errors@) =~= before.push(config_error_view(e)));
        }
        i = i + 1;
    }
    assert(ps.subrange(0, ps.len() as int) =~= ps);
    if errors.len() == 0 {
        Ok(())
    } else {
        Err(errors)
    }
}

} // verus!
