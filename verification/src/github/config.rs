//! Github configuration
use super::platform::GithubPlatform;
use crate::config::{clone_setting, setting_view, stored, ConfigKey, GitMoverConfig};
use crate::platform::Platform;
use vstd::prelude::*;

verus! {

/// Github configuration
#[derive(Debug)]
pub struct GithubConfig {
    /// Github username
    pub username: Option<String>,
    /// Github token
    pub token: Option<String>,
}

impl Default for GithubConfig {
    fn default() -> (c: GithubConfig)
        ensures
            c.username is None,
            c.token is None,
    {
        GithubConfig { username: None, token: None }
    }
}

impl Clone for GithubConfig {
    fn clone(&self) -> (c: GithubConfig)
        ensures
            setting_view(c.username) == setting_view(self.username),
            setting_view(c.token) == setting_view(self.token),
    {
        GithubConfig { username: clone_setting(&self.username), token: clone_setting(&self.token) }
    }
}

impl GithubConfig {
    /// Get the github platform: the platform, if the configuration holds
    /// a user name and a token for it; else the first of the two that is
    /// missing.
    pub fn get_plateform(config: &GitMoverConfig) -> (res: Result<GithubPlatform, ConfigKey>)
        ensures
            match res {
                Ok(p) => stored(config.config_data, ConfigKey::GithubUsername) is Some && stored(
                    config.config_data,
                    ConfigKey::GithubToken,
                ) is Some && p.model() == GithubPlatform::model_of(
                    stored(config.config_data, ConfigKey::GithubUsername)->0,
                    stored(config.config_data, ConfigKey::GithubToken)->0,
                ),
                Err(key) => stored(config.config_data, key) is None && (key
                    == ConfigKey::GithubUsername || (key == ConfigKey::GithubToken && stored(
                    config.config_data,
                    ConfigKey::GithubUsername,
                ) is Some)),
            },
    {
        match config.config_data.lookup(ConfigKey::GithubUsername) {
            None => Err(ConfigKey::GithubUsername),
            Some(username) => match config.config_data.lookup(ConfigKey::GithubToken) {
                None => Err(ConfigKey::GithubToken),
                Some(token) => Ok(GithubPlatform::new(username, token)),
            },
        }
    }
}

} // verus!
