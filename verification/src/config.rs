//! The configuration that the client starts from: the two credentials, as
//! the environment gave them, and the defaults of the command line.

use vstd::prelude::*;

verus! {

/// The hours that are looked back where none are asked for.
pub const DEFAULT_HOURS: u32 = 24;

/// The most exceptions that are reported where no limit is asked for.
pub const DEFAULT_LIMIT: u32 = 50;

/// The name of the environment variable that holds the application identifier.
pub fn app_id_variable() -> (name: &'static str)
    ensures
        name@ == "APP_INSIGHTS_APP_ID"@,
{
    "APP_INSIGHTS_APP_ID"
}

/// The name of the environment variable that holds the API key.
pub fn api_key_variable() -> (name: &'static str)
    ensures
        name@ == "APP_INSIGHTS_API_KEY"@,
{
    "APP_INSIGHTS_API_KEY"
}

/// The credentials of the client.
#[derive(Debug, PartialEq, Eq)]
pub struct Config {
    pub app_id: String,
    pub api_key: String,
}

/// A credential that the environment does not hold.
#[derive(Debug, PartialEq, Eq, Clone, Copy)]
pub enum ConfigError {
    MissingAppId,
    MissingApiKey,
}

/// The line that reports a missing credential.
pub open spec fn config_error_text(error: ConfigError) -> Seq<char> {
    match error {
        ConfigError::MissingAppId => "missing environment variable APP_INSIGHTS_APP_ID"@,
        ConfigError::MissingApiKey => "missing environment variable APP_INSIGHTS_API_KEY"@,
    }
}

impl ConfigError {
    /// Renders the error as one line of text.
    pub fn message(&self) -> (text: String)
        ensures
            text@ == config_error_text(*self),
    {
        match self {
            ConfigError::MissingAppId => "missing environment variable APP_INSIGHTS_APP_ID".to_owned(),
            ConfigError::MissingApiKey => "missing environment variable APP_INSIGHTS_API_KEY".to_owned(),
        }
    }
}

impl Config {
    /// Makes the configuration from the values of the two variables, each
    /// `None` where the environment does not hold it. Both are required; where
    /// both are missing, the application identifier is the one reported.
    pub fn from_values(app_id: Option<String>, api_key: Option<String>) -> (config: Result<
        Config,
        ConfigError,
    >)
        ensures
            match (app_id, api_key) {
                (None, _) => config == Err::<Config, ConfigError>(ConfigError::MissingAppId),
                (Some(_), None) => config == Err::<Config, ConfigError>(
                    ConfigError::MissingApiKey,
                ),
                (Some(id), Some(key)) => config == Ok::<Config, ConfigError>(
                    Config { app_id: id, api_key: key },
                ),
            },
    {
        match app_id {
            None => Err(ConfigError::MissingAppId),
            Some(id) => match api_key {
                None => Err(ConfigError::MissingApiKey),
                Some(key) => Ok(Config { app_id: id, api_key: key }),
            },
        }
    }
}

} // verus!
