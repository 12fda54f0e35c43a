//! Configuration handling
use crate::cli::GitMoverCli;
use crate::codeberg::config::CodebergConfig;
use crate::errors::{plain_error, GitMoverError};
use crate::github::config::GithubConfig;
use crate::gitlab::config::GitlabConfig;
use crate::platform::PlatformType;
use vstd::prelude::*;
use vstd::string::StringExecFns;

verus! {

/// The directory under the home directory that holds the configuration
/// directory of this program.
pub const CONFIG_HOME: &'static str = ".config";

/// The configuration directory of this program.
pub const CONFIG_DIRECTORY: &'static str = ".git-mover";

/// The name of the configuration file.
pub const CONFIG_FILE: &'static str = "config.toml";

/// One setting of the configuration file.
#[derive(Debug, Clone, Copy, PartialEq, Eq, Structural)]
pub enum ConfigKey {
    GitlabUsername,
    GitlabToken,
    GitlabCustomUrl,
    GithubUsername,
    GithubToken,
    CodebergUsername,
    CodebergToken,
}

/// The model of an optional setting.
pub open spec fn setting_view(s: Option<String>) -> Option<Seq<char>> {
    match s {
        Some(t) => Some(t@),
        None => None,
    }
}

/// Copies an optional setting.
pub fn clone_setting(s: &Option<String>) -> (res: Option<String>)
    ensures
        setting_view(res) == setting_view(*s),
{
    match s {
        Some(t) => Some(t.clone()),
        None => None,
    }
}

/// Actual configuration data
#[derive(Debug)]
pub struct ConfigData {
    /// Gitlab configuration
    pub gitlab: Option<GitlabConfig>,
    /// Github configuration
    pub github: Option<GithubConfig>,
    /// Codeberg configuration
    pub codeberg: Option<CodebergConfig>,
}

/// What the configuration holds under `key`. A setting of a platform
/// without a section of its own is missing.
pub open spec fn stored(data: ConfigData, key: ConfigKey) -> Option<Seq<char>> {
    match key {
        ConfigKey::GitlabUsername => match data.gitlab {
            Some(c) => setting_view(c.username),
            None => None,
        },
        ConfigKey::GitlabToken => match data.gitlab {
            Some(c) => setting_view(c.token),
            None => None,
        },
        ConfigKey::GitlabCustomUrl => match data.gitlab {
            Some(c) => setting_view(c.custom_url),
            None => None,
        },
        ConfigKey::GithubUsername => match data.github {
            Some(c) => setting_view(c.username),
            None => None,
        },
        ConfigKey::GithubToken => match data.github {
            Some(c) => setting_view(c.token),
            None => None,
        },
        ConfigKey::CodebergUsername => match data.codeberg {
            Some(c) => setting_view(c.username),
            None => None,
        },
        ConfigKey::CodebergToken => match data.codeberg {
            Some(c) => setting_view(c.token),
            None => None,
        },
    }
}

/// Two configurations that hold the same under every key.
pub open spec fn same_settings(a: ConfigData, b: ConfigData) -> bool {
    forall|key: ConfigKey| stored(a, key) == stored(b, key)
}

/// What the operator is asked to enter for a setting.
pub open spec fn prompt_text(key: ConfigKey) -> Seq<char> {
    match key {
        ConfigKey::GitlabUsername => "Please enter your gitlab username:"@,
        ConfigKey::GitlabToken => "Please enter your gitlab token (https://gitlab.com/-/user_settings/personal_access_tokens):"@,
        ConfigKey::GitlabCustomUrl => "Please enter custom gitlab url - empty to get the default Gitlab url:"@,
        ConfigKey::GithubUsername => "Please enter your github username:"@,
        ConfigKey::GithubToken => "Please enter your github token (https://github.com/settings/personal-access-tokens):"@,
        ConfigKey::CodebergUsername => "Please enter your codeberg username:"@,
        ConfigKey::CodebergToken => "Please enter your codeberg token (https://codeberg.org/user/settings/applications):"@,
    }
}

/// The platform that a setting belongs to.
pub open spec fn key_platform(key: ConfigKey) -> PlatformType {
    match key {
        ConfigKey::GitlabUsername => PlatformType::Gitlab,
        ConfigKey::GitlabToken => PlatformType::Gitlab,
        ConfigKey::GitlabCustomUrl => PlatformType::Gitlab,
        ConfigKey::GithubUsername => PlatformType::Github,
        ConfigKey::GithubToken => PlatformType::Github,
        ConfigKey::CodebergUsername => PlatformType::Codeberg,
        ConfigKey::CodebergToken => PlatformType::Codeberg,
    }
}

/// Whether a setting is entered without echo: every setting but the user
/// names.
pub open spec fn key_is_secret(key: ConfigKey) -> bool {
    !(key == ConfigKey::GitlabUsername || key == ConfigKey::GithubUsername || key
        == ConfigKey::CodebergUsername)
}

impl ConfigKey {
    /// What the operator is asked to enter for the setting.
    pub fn prompt(&self) -> (s: &'static str)
        ensures
            s@ == prompt_text(*self),
    {
        match self {
            ConfigKey::GitlabUsername => "Please enter your gitlab username:",
            ConfigKey::GitlabToken => "Please enter your gitlab token (https://gitlab.com/-/user_settings/personal_access_tokens):",
            ConfigKey::GitlabCustomUrl => "Please enter custom gitlab url - empty to get the default Gitlab url:",
            ConfigKey::GithubUsername => "Please enter your github username:",
            ConfigKey::GithubToken => "Please enter your github token (https://github.com/settings/personal-access-tokens):",
            ConfigKey::CodebergUsername => "Please enter your codeberg username:",
            ConfigKey::CodebergToken => "Please enter your codeberg token (https://codeberg.org/user/settings/applications):",
        }
    }

    /// The platform that the setting belongs to.
    pub fn platform(&self) -> (p: PlatformType)
        ensures
            p == key_platform(*self),
    {
        match self {
            ConfigKey::GitlabUsername => PlatformType::Gitlab,
            ConfigKey::GitlabToken => PlatformType::Gitlab,
            ConfigKey::GitlabCustomUrl => PlatformType::Gitlab,
            ConfigKey::GithubUsername => PlatformType::Github,
            ConfigKey::GithubToken => PlatformType::Github,
            ConfigKey::CodebergUsername => PlatformType::Codeberg,
            ConfigKey::CodebergToken => PlatformType::Codeberg,
        }
    }

    /// Whether the setting is entered without echo.
    pub fn is_secret(&self) -> (b: bool)
        ensures
            b == key_is_secret(*self),
    {
        match self {
            ConfigKey::GitlabUsername => false,
            ConfigKey::GithubUsername => false,
            ConfigKey::CodebergUsername => false,
            _ => true,
        }
    }
}

impl Default for ConfigData {
    fn default() -> (data: ConfigData)
        ensures
            forall|key: ConfigKey| stored(data, key) is None,
    {
        ConfigData { gitlab: None, github: None, codeberg: None }
    }
}

impl Clone for ConfigData {
    fn clone(&self) -> (data: ConfigData)
        ensures
            same_settings(data, *self),
    {
        ConfigData {
            gitlab: match &self.gitlab {
                Some(c) => Some(c.clone()),
                None => None,
            },
            github: match &self.github {
                Some(c) => Some(c.clone()),
                None => None,
            },
            codeberg: match &self.codeberg {
                Some(c) => Some(c.clone()),
                None => None,
            },
        }
    }
}

impl ConfigData {
    /// What the configuration holds under `key`.
    pub fn lookup(&self, key: ConfigKey) -> (res: Option<String>)
        ensures
            setting_view(res) == stored(*self, key),
    {
        match key {
            ConfigKey::GitlabUsername => match &self.gitlab {
                Some(c) => clone_setting(&c.username),
                None => None,
            },
            ConfigKey::GitlabToken => match &self.gitlab {
                Some(c) => clone_setting(&c.token),
                None => None,
            },
            ConfigKey::GitlabCustomUrl => match &self.gitlab {
                Some(c) => clone_setting(&c.custom_url),
                None => None,
            },
            ConfigKey::GithubUsername => match &self.github {
                Some(c) => clone_setting(&c.username),
                None => None,
            },
            ConfigKey::GithubToken => match &self.github {
                Some(c) => clone_setting(&c.token),
                None => None,
            },
            ConfigKey::CodebergUsername => match &self.codeberg {
                Some(c) => clone_setting(&c.username),
                None => None,
            },
            ConfigKey::CodebergToken => match &self.codeberg {
                Some(c) => clone_setting(&c.token),
                None => None,
            },
        }
    }

    /// This configuration with `value` under `key`. Every other setting
    /// stays as it is; the section of the platform is made if it is missing.
    pub fn with(self, key: ConfigKey, value: String) -> (data: ConfigData)
        ensures
            stored(data, key) == Some(value@),
            forall|other: ConfigKey| other != key ==> stored(data, other) == stored(self, other),
    {
        let ConfigData { gitlab, github, codeberg } = self;
        match key_section(key) {
            PlatformType::Gitlab => {
                let section = match gitlab {
                    Some(c) => c,
                    None => GitlabConfig::default(),
                };
                let section = match key {
                    ConfigKey::GitlabUsername => GitlabConfig { username: Some(value), ..section },
                    ConfigKey::GitlabToken => GitlabConfig { token: Some(value), ..section },
                    _ => GitlabConfig { custom_url: Some(value), ..section },
                };
                ConfigData { gitlab: Some(section), github, codeberg }
            },
            PlatformType::Github => {
                let section = match github {
                    Some(c) => c,
                    None => GithubConfig::default(),
                };
                let section = match key {
                    ConfigKey::GithubUsername => GithubConfig { username: Some(value), ..section },
                    _ => GithubConfig { token: Some(value), ..section },
                };
                ConfigData { gitlab, github: Some(section), codeberg }
            },
            PlatformType::Codeberg => {
                let section = match codeberg {
                    Some(c) => c,
                    None => CodebergConfig::default(),
                };
                let section = match key {
                    ConfigKey::CodebergUsername => CodebergConfig {
                        username: Some(value),
                        ..section
                    },
                    _ => CodebergConfig { token: Some(value), ..section },
                };
                ConfigData { gitlab, github, codeberg: Some(section) }
            },
        }
    }
}

fn key_section(key: ConfigKey) -> (p: PlatformType)
    ensures
        p == key_platform(key),
{
    key.platform()
}

/// Configuration data
#[derive(Debug)]
pub struct GitMoverConfig {
    /// path to the configuration file
    pub config_path: String,
    /// actual configuration data
    pub config_data: ConfigData,
    /// CLI arguments
    pub cli_args: GitMoverCli,
}

impl GitMoverConfig {
    /// Puts a configuration together from what was read.
    pub fn new(config_path: String, config_data: ConfigData, cli_args: GitMoverCli) -> (config:
        GitMoverConfig)
        ensures
            config.config_path == config_path,
            config.config_data == config_data,
            config.cli_args == cli_args,
    {
        GitMoverConfig { config_path, config_data, cli_args }
    }

    /// Update the config data: the data becomes what `updater_fn` makes of
    /// it. The path and the command line options stay as they are. Writing
    /// the file is left to the caller.
    pub fn update(&mut self, updater_fn: impl FnOnce(ConfigData) -> ConfigData)
        requires
            call_requires(updater_fn, (old(self).config_data,)),
        ensures
            call_ensures(updater_fn, (old(self).config_data,), final(self).config_data),
            final(self).config_path == old(self).config_path,
            final(self).cli_args == old(self).cli_args,
    {
        let mut taken = ConfigData { gitlab: None, github: None, codeberg: None };
        core::mem::swap(&mut self.config_data, &mut taken);
        self.config_data = updater_fn(taken);
    }

    /// Puts `value` under `key`. Every other setting stays as it is.
    pub fn set(&mut self, key: ConfigKey, value: String)
        ensures
            stored(final(self).config_data, key) == Some(value@),
            forall|other: ConfigKey|
                other != key ==> stored(final(self).config_data, other) == stored(
                    old(self).config_data,
                    other,
                ),
            final(self).config_path == old(self).config_path,
            final(self).cli_args == old(self).cli_args,
    {
        let mut taken = ConfigData { gitlab: None, github: None, codeberg: None };
        core::mem::swap(&mut self.config_data, &mut taken);
        self.config_data = taken.with(key, value);
    }
}

/// The home directory to build the configuration path from: the one that
/// was found, unless none was found or it is empty.
pub fn usable_home(home: Option<String>) -> (res: Result<String, GitMoverError>)
    ensures
        match res {
            Ok(dir) => home == Some(dir) && dir@.len() > 0,
            Err(e) => (home matches Some(dir) ==> dir@.len() == 0) && e@ == plain_error(
                "Unable to get your home dir! home::home_dir() isn't working"@,
            ),
        },
{
    match home {
        Some(dir) => if dir.as_str().is_empty() {
            Err(
                GitMoverError::new(
                    String::from_str("Unable to get your home dir! home::home_dir() isn't working"),
                ),
            )
        } else {
            Ok(dir)
        },
        None => Err(
            GitMoverError::new(
                String::from_str("Unable to get your home dir! home::home_dir() isn't working"),
            ),
        ),
    }
}

} // verus!
