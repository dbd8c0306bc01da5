//! Error codes and the error type returned by the configuration pipeline.

use vstd::prelude::*;

verus! {

/// Numeric code reported on success.
pub const SUCCESS: u32 = 0;

/// Numeric code a caller would see where no more precise kind applies.
pub const UNKNOWN_ERROR: u32 = 1001;

/// Numeric code returned when a requested configuration key is absent.
pub const INVALID_CONFIGURATION: u32 = 1004;

/// Failure of the load/merge/validate pipeline.
#[derive(Debug)]
pub enum ConfigError {
    /// The supplied path does not name an existing regular file.
    ConfigurationFileNotFound,
    /// The file exists but could not be parsed into string key/value pairs.
    ConfigurationParseFailure,
    /// One or more checked keys hold a value that fails the character-class
    /// rule; the payload enumerates every offending key and value.
    InvalidConfigurationValue(String),
}

impl ConfigError {
    /// The human-readable message for this error.
    pub open spec fn spec_message(self) -> Seq<char> {
        match self {
            ConfigError::ConfigurationFileNotFound => "could not find configuration file"@,
            ConfigError::ConfigurationParseFailure => "could not parse configuration file"@,
            ConfigError::InvalidConfigurationValue(m) => m@,
        }
    }

    /// Returns the message for this error.
    pub fn message(&self) -> (r: String)
        ensures
            r@ == self.spec_message(),
    {
        match self {
            ConfigError::ConfigurationFileNotFound => "could not find configuration file".to_owned(),
            ConfigError::ConfigurationParseFailure => "could not parse configuration file".to_owned(),
            ConfigError::InvalidConfigurationValue(m) => m.clone(),
        }
    }
}

} // verus!
