//! Codeberg configuration
use super::platform::CodebergPlatform;
use crate::config::{clone_setting, setting_view, stored, ConfigKey, GitMoverConfig};
use crate::platform::Platform;
use vstd::prelude::*;

verus! {

/// Codeberg configuration
#[derive(Debug)]
pub struct CodebergConfig {
    /// Codeberg username
    pub username: Option<String>,
    /// Codeberg token
    pub token: Option<String>,
}

impl Default for CodebergConfig {
    fn default() -> (c: CodebergConfig)
        ensures
            c.username is None,
            c.token is None,
    {
        CodebergConfig { username: None, token: None }
    }
}

impl Clone for CodebergConfig {
    fn clone(&self) -> (c: CodebergConfig)
        ensures
            setting_view(c.username) == setting_view(self.username),
            setting_view(c.token) == setting_view(self.token),
    {
        CodebergConfig { username: clone_setting(&self.username), token: clone_setting(&self.token) }
    }
}

impl CodebergConfig {
    /// Get the codeberg platform: the platform, if the configuration holds
    /// a user name and a token for it; else the first of the two that is
    /// missing.
    pub fn get_plateform(config: &GitMoverConfig) -> (res: Result<CodebergPlatform, ConfigKey>)
        ensures
            match res {
                Ok(p) => stored(config.config_data, ConfigKey::CodebergUsername) is Some && stored(
                    config.config_data,
                    ConfigKey::CodebergToken,
                ) is Some && p.model() == CodebergPlatform::model_of(
                    stored(config.config_data, ConfigKey::CodebergUsername)->0,
                    stored(config.config_data, ConfigKey::CodebergToken)->0,
                ),
                Err(key) => stored(config.config_data, key) is None && (key
                    == ConfigKey::CodebergUsername || (key == ConfigKey::CodebergToken && stored(
                    config.config_data,
                    ConfigKey::CodebergUsername,
                ) is Some)),
            },
    {
        match config.config_data.lookup(ConfigKey::CodebergUsername) {
            None => Err(ConfigKey::CodebergUsername),
            Some(username) => match config.config_data.lookup(ConfigKey::CodebergToken) {
                None => Err(ConfigKey::CodebergToken),
                Some(token) => Ok(CodebergPlatform::new(username, token)),
            },
        }
    }
}

} // verus!
