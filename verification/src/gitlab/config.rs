//! Gitlab configuration
use super::platform::GitlabPlatform;
use crate::config::{clone_setting, setting_view, stored, ConfigKey, GitMoverConfig};
use crate::platform::Platform;
use vstd::prelude::*;

verus! {

/// Gitlab configuration
#[derive(Debug)]
pub struct GitlabConfig {
    /// Gitlab username
    pub username: Option<String>,
    /// Gitlab token
    pub token: Option<String>,
    /// Custom Gitlab url
    pub custom_url: Option<String>,
}

impl Default for GitlabConfig {
    fn default() -> (c: GitlabConfig)
        ensures
            c.username is None,
            c.token is None,
            c.custom_url is None,
    {
        GitlabConfig { username: None, token: None, custom_url: None }
    }
}

impl Clone for GitlabConfig {
    fn clone(&self) -> (c: GitlabConfig)
        ensures
            setting_view(c.username) == setting_view(self.username),
            setting_view(c.token) == setting_view(self.token),
            setting_view(c.custom_url) == setting_view(self.custom_url),
    {
        GitlabConfig {
            username: clone_setting(&self.username),
            token: clone_setting(&self.token),
            custom_url: clone_setting(&self.custom_url),
        }
    }
}

/// The first setting that Gitlab needs and the configuration lacks: user
/// name, token, custom address, in that order.
pub open spec fn first_missing(data: crate::config::ConfigData) -> Option<ConfigKey> {
    if stored(data, ConfigKey::GitlabUsername) is None {
        Some(ConfigKey::GitlabUsername)
    } else if stored(data, ConfigKey::GitlabToken) is None {
        Some(ConfigKey::GitlabToken)
    } else if stored(data, ConfigKey::GitlabCustomUrl) is None {
        Some(ConfigKey::GitlabCustomUrl)
    } else {
        None
    }
}

impl GitlabConfig {
    /// Get Gitlab platform: the platform, if the configuration holds a user
    /// name, a token and a custom address for it; else the first of the
    /// three that is missing. An empty custom address stands for Gitlab's
    /// own.
    pub fn get_plateform(config: &GitMoverConfig) -> (res: Result<GitlabPlatform, ConfigKey>)
        ensures
            match res {
                Ok(p) => first_missing(config.config_data) is None && p.model()
                    == GitlabPlatform::model_of(
                    stored(config.config_data, ConfigKey::GitlabUsername)->0,
                    stored(config.config_data, ConfigKey::GitlabToken)->0,
                    if stored(config.config_data, ConfigKey::GitlabCustomUrl)->0.len() == 0 {
                        None
                    } else {
                        stored(config.config_data, ConfigKey::GitlabCustomUrl)
                    },
                ),
                Err(key) => first_missing(config.config_data) == Some(key),
            },
    {
        match config.config_data.lookup(ConfigKey::GitlabUsername) {
            None => Err(ConfigKey::GitlabUsername),
            Some(username) => match config.config_data.lookup(ConfigKey::GitlabToken) {
                None => Err(ConfigKey::GitlabToken),
                Some(token) => match config.config_data.lookup(ConfigKey::GitlabCustomUrl) {
                    None => Err(ConfigKey::GitlabCustomUrl),
                    Some(custom_url) => {
                        let custom = if custom_url.as_str().is_empty() {
                            None
                        } else {
                            Some(custom_url)
                        };
                        Ok(GitlabPlatform::new(username, token, custom))
                    },
                },
            },
        }
    }
}

} // verus!
