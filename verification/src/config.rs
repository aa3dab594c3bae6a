//! Startup configuration: the provider credentials, the redirect URI and
//! the store connection string must all be present before the service can
//! start; a missing value is a fatal startup error, not a runtime error.

use vstd::prelude::*;

verus! {

/// The values the service cannot start without.
#[derive(Debug)]
pub struct AppConfig {
    pub client_id: String,
    pub client_secret: String,
    pub redirect_uri: String,
    pub store_url: String,
}

/// Which required value is missing.
#[derive(PartialEq, Eq, Structural, Clone, Copy, Debug)]
pub enum ConfigError {
    MissingClientId,
    MissingClientSecret,
    MissingRedirectUri,
    MissingStoreUrl,
}

/// Assemble the startup configuration from the optional values the
/// environment supplied, failing on the first missing one.
pub fn config_from(
    client_id: Option<String>,
    client_secret: Option<String>,
    redirect_uri: Option<String>,
    store_url: Option<String>,
) -> (r: Result<AppConfig, ConfigError>)
    ensures
        match client_id {
            None => r == Err::<AppConfig, ConfigError>(ConfigError::MissingClientId),
            Some(ci) => match client_secret {
                None => r == Err::<AppConfig, ConfigError>(ConfigError::MissingClientSecret),
                Some(cs) => match redirect_uri {
                    None => r == Err::<AppConfig, ConfigError>(ConfigError::MissingRedirectUri),
                    Some(ru) => match store_url {
                        None => r == Err::<AppConfig, ConfigError>(ConfigError::MissingStoreUrl),
                        Some(su) => r matches Ok(c) && c.client_id == ci && c.client_secret == cs
                            && c.redirect_uri == ru && c.store_url == su,
                    },
                },
            },
        },
{
    let client_id = match client_id {
        Some(v) => v,
        None => {
            return Err(ConfigError::MissingClientId);
        },
    };
    let client_secret = match client_secret {
        Some(v) => v,
        None => {
            return Err(ConfigError::MissingClientSecret);
        },
    };
    let redirect_uri = match redirect_uri {
        Some(v) => v,
        None => {
            return Err(ConfigError::MissingRedirectUri);
        },
    };
    let store_url = match store_url {
        Some(v) => v,
        None => {
            return Err(ConfigError::MissingStoreUrl);
        },
    };
    Ok(AppConfig { client_id, client_secret, redirect_uri, store_url })
}

} // verus!
