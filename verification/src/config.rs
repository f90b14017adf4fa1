//! Start-up configuration.

use vstd::prelude::*;

verus! {

/// Settings the process needs before it can serve requests.
#[derive(Debug, PartialEq, Eq)]
pub struct Config {
    /// Connection string of the database that holds the items.
    pub database_url: String,
}

impl Clone for Config {
    fn clone(&self) -> (copy: Self)
        ensures
            copy.database_url@ == self.database_url@,
    {
        Config { database_url: self.database_url.clone() }
    }
}

/// Why a configuration could not be built.
#[derive(Clone, Copy, Debug, PartialEq, Eq)]
pub enum ConfigError {
    /// The connection string was not present in the environment.
    MissingDatabaseUrl,
}

/// Name of the environment variable that carries the connection string.
pub fn database_url_key() -> (key: &'static str)
    ensures
        key@ == "DATABASE_URL"@,
{
    "DATABASE_URL"
}

impl ConfigError {
    /// The diagnostic shown when start-up is abandoned.
    pub fn message(&self) -> (text: &'static str)
        ensures
            text@ == "DATABASE_URL not set in environment"@,
    {
        "DATABASE_URL not set in environment"
    }
}

/// Builds the configuration from the value looked up under
/// [`database_url_key`]: present gives a `Config` holding exactly that value,
/// absent is an error.
pub fn load_config(database_url: Option<String>) -> (result: Result<Config, ConfigError>)
    ensures
        match database_url {
            Some(url) => result matches Ok(config) && config.database_url@ == url@,
            None => result == Err::<Config, ConfigError>(ConfigError::MissingDatabaseUrl),
        },
{
    match database_url {
        Some(url) => Ok(Config { database_url: url }),
        None => Err(ConfigError::MissingDatabaseUrl),
    }
}

} // verus!
