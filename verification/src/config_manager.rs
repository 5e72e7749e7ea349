use crate::errors::BotError;
use crate::text::join_text;
use crate::types::{Config, Loaded};
use vstd::prelude::*;

verus! {

/// Turns what came of reading the configuration file into the configuration.
pub struct ConfigManager;

impl ConfigManager {
    /// The configuration, where the file was read and decoded; else the
    /// error that says which of the two failed, and why. A file that is
    /// missing is a file that could not be read.
    pub fn load_from_file(stored: Loaded<Config>) -> (loaded: Result<Config, BotError>)
        ensures
            match stored {
                Loaded::Missing(reason) => loaded matches Err(BotError::ConfigError(message))
                    && message@ == "Failed to read config file: "@ + reason@,
                Loaded::Unreadable(reason) => loaded matches Err(BotError::ConfigError(message))
                    && message@ == "Failed to read config file: "@ + reason@,
                Loaded::Malformed(reason) => loaded matches Err(BotError::ConfigError(message))
                    && message@ == "Failed to parse config: "@ + reason@,
                Loaded::Decoded(config) => loaded == Ok::<Config, BotError>(config),
            },
    {
        match stored {
            Loaded::Missing(reason) => Err(
                BotError::ConfigError(join_text("Failed to read config file: ", reason.as_str())),
            ),
            Loaded::Unreadable(reason) => Err(
                BotError::ConfigError(join_text("Failed to read config file: ", reason.as_str())),
            ),
            Loaded::Malformed(reason) => Err(
                BotError::ConfigError(join_text("Failed to parse config: ", reason.as_str())),
            ),
            Loaded::Decoded(config) => Ok(config),
        }
    }
}

} // verus!
