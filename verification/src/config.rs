//! Configuration management: the manager trait the service programs
//! against, and its default implementation over an already-loaded
//! configuration value. Reading the environment is the surrounding
//! process's work; it hands the loaded value in.

use vstd::prelude::*;
use vstd::string::*;
use crate::errors::ConfigError;
use crate::models::{spec_config_error, BotConfig};
use crate::text::{spec_dec, u64_to_string};

verus! {

/// Operations a configuration manager offers the running service.
pub trait ConfigManager {
    /// The configuration currently in force.
    fn current(&self) -> &BotConfig;

    /// Change the watched channel; zero is not a channel.
    fn update_target_channel(&mut self, channel_id: u64) -> Result<(), ConfigError>;

    /// Check the configuration currently in force.
    fn validate_config(&self) -> Result<(), ConfigError>;
}

/// The default configuration manager: it holds one loaded configuration
/// value.
#[derive(Debug, Clone, PartialEq)]
pub struct DefaultConfigManager {
    config: BotConfig,
}

impl DefaultConfigManager {
    /// The configuration the manager holds.
    pub closed spec fn spec_config(&self) -> BotConfig {
        self.config
    }

    /// A manager over an already-loaded configuration value.
    pub fn new(config: BotConfig) -> (m: DefaultConfigManager)
        ensures
            m.spec_config() == config,
    {
        DefaultConfigManager { config }
    }

    /// Borrow the configuration.
    pub fn config(&self) -> (r: &BotConfig)
        ensures
            r == self.spec_config(),
    {
        &self.config
    }

    /// Borrow the configuration for modification.
    pub fn config_mut(&mut self) -> &mut BotConfig {
        &mut self.config
    }
}

impl ConfigManager for DefaultConfigManager {
    fn current(&self) -> &BotConfig {
        &self.config
    }

    /// Change the watched channel. Zero names no channel and is rejected
    /// with the field and offered value; any other identifier is stored.
    fn update_target_channel(&mut self, channel_id: u64) -> (r: Result<(), ConfigError>)
        ensures
            r is Ok <==> channel_id != 0,
            r is Ok ==> final(self).spec_config() == (BotConfig {
                target_channel_id: channel_id,
                ..old(self).spec_config()
            }),
            r is Err ==> *final(self) == *old(self),
            r is Err ==> (r->Err_0 matches ConfigError::InvalidValue { field, value } && field@
                == "target_channel_id"@ && value@ == spec_dec(channel_id as nat)),
    {
        if channel_id == 0 {
            return Err(
                ConfigError::InvalidValue {
                    field: String::from_str("target_channel_id"),
                    value: u64_to_string(channel_id),
                },
            );
        }
        self.config.target_channel_id = channel_id;
        Ok(())
    }

    /// Check the held configuration, wrapping the first failing check's
    /// message.
    fn validate_config(&self) -> (r: Result<(), ConfigError>)
        ensures
            r is Ok <==> spec_config_error(self.spec_config()) is None,
            r is Err ==> (r->Err_0 matches ConfigError::ValidationFailed(m) && m@
                == spec_config_error(self.spec_config())->0),
    {
        match self.config.validate() {
            Ok(()) => Ok(()),
            Err(msg) => Err(ConfigError::ValidationFailed(msg)),
        }
    }
}

} // verus!
