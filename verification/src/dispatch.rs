//! The platform of a run, chosen once from the three that are supported.
use crate::codeberg::config::CodebergConfig;
use crate::codeberg::platform::CodebergPlatform;
use crate::config::{stored, ConfigData, ConfigKey, GitMoverConfig};
use crate::github::config::GithubConfig;
use crate::github::platform::GithubPlatform;
use crate::gitlab::config::GitlabConfig;
use crate::gitlab::platform::GitlabPlatform;
use crate::http::{HttpRequest, HttpRequestView};
use crate::platform::{Platform, PlatformType, PlatformView};
use crate::utils::{Repo, RepoView};
use vstd::prelude::*;

verus! {

/// One of the supported platforms.
#[derive(Debug)]
pub enum AnyPlatform {
    Gitlab(GitlabPlatform),
    Github(GithubPlatform),
    Codeberg(CodebergPlatform),
}

impl Platform for AnyPlatform {
    open spec fn model(&self) -> PlatformView {
        match self {
            AnyPlatform::Gitlab(p) => p.model(),
            AnyPlatform::Github(p) => p.model(),
            AnyPlatform::Codeberg(p) => p.model(),
        }
    }

    open spec fn create_request_spec(&self, repo: RepoView) -> HttpRequestView {
        match self {
            AnyPlatform::Gitlab(p) => p.create_request_spec(repo),
            AnyPlatform::Github(p) => p.create_request_spec(repo),
            AnyPlatform::Codeberg(p) => p.create_request_spec(repo),
        }
    }

    open spec fn get_request_spec(&self, name: Seq<char>) -> HttpRequestView {
        match self {
            AnyPlatform::Gitlab(p) => p.get_request_spec(name),
            AnyPlatform::Github(p) => p.get_request_spec(name),
            AnyPlatform::Codeberg(p) => p.get_request_spec(name),
        }
    }

    open spec fn edit_request_spec(&self, repo: RepoView) -> HttpRequestView {
        match self {
            AnyPlatform::Gitlab(p) => p.edit_request_spec(repo),
            AnyPlatform::Github(p) => p.edit_request_spec(repo),
            AnyPlatform::Codeberg(p) => p.edit_request_spec(repo),
        }
    }

    open spec fn list_request_spec(&self, page: nat) -> HttpRequestView {
        match self {
            AnyPlatform::Gitlab(p) => p.list_request_spec(page),
            AnyPlatform::Github(p) => p.list_request_spec(page),
            AnyPlatform::Codeberg(p) => p.list_request_spec(page),
        }
    }

    open spec fn delete_request_spec(&self, name: Seq<char>) -> HttpRequestView {
        match self {
            AnyPlatform::Gitlab(p) => p.delete_request_spec(name),
            AnyPlatform::Github(p) => p.delete_request_spec(name),
            AnyPlatform::Codeberg(p) => p.delete_request_spec(name),
        }
    }

    open spec fn lookup_key_spec(&self, repo: RepoView) -> Seq<char> {
        match self {
            AnyPlatform::Gitlab(p) => p.lookup_key_spec(repo),
            AnyPlatform::Github(p) => p.lookup_key_spec(repo),
            AnyPlatform::Codeberg(p) => p.lookup_key_spec(repo),
        }
    }

    open spec fn as_stored_spec(&self, repo: RepoView) -> RepoView {
        match self {
            AnyPlatform::Gitlab(p) => p.as_stored_spec(repo),
            AnyPlatform::Github(p) => p.as_stored_spec(repo),
            AnyPlatform::Codeberg(p) => p.as_stored_spec(repo),
        }
    }

    fn get_username(&self) -> (u: &str) {
        match self {
            AnyPlatform::Gitlab(p) => p.get_username(),
            AnyPlatform::Github(p) => p.get_username(),
            AnyPlatform::Codeberg(p) => p.get_username(),
        }
    }

    fn get_remote_url(&self) -> (h: String) {
        match self {
            AnyPlatform::Gitlab(p) => p.get_remote_url(),
            AnyPlatform::Github(p) => p.get_remote_url(),
            AnyPlatform::Codeberg(p) => p.get_remote_url(),
        }
    }

    fn get_type(&self) -> (k: PlatformType) {
        match self {
            AnyPlatform::Gitlab(p) => p.get_type(),
            AnyPlatform::Github(p) => p.get_type(),
            AnyPlatform::Codeberg(p) => p.get_type(),
        }
    }

    fn create_request(&self, repo: &Repo) -> (req: HttpRequest) {
        match self {
            AnyPlatform::Gitlab(p) => p.create_request(repo),
            AnyPlatform::Github(p) => p.create_request(repo),
            AnyPlatform::Codeberg(p) => p.create_request(repo),
        }
    }

    fn get_request(&self, name: &str) -> (req: HttpRequest) {
        match self {
            AnyPlatform::Gitlab(p) => p.get_request(name),
            AnyPlatform::Github(p) => p.get_request(name),
            AnyPlatform::Codeberg(p) => p.get_request(name),
        }
    }

    fn edit_request(&self, repo: &Repo) -> (req: HttpRequest) {
        match self {
            AnyPlatform::Gitlab(p) => p.edit_request(repo),
            AnyPlatform::Github(p) => p.edit_request(repo),
            AnyPlatform::Codeberg(p) => p.edit_request(repo),
        }
    }

    fn list_request(&self, page: usize) -> (req: HttpRequest) {
        match self {
            AnyPlatform::Gitlab(p) => p.list_request(page),
            AnyPlatform::Github(p) => p.list_request(page),
            AnyPlatform::Codeberg(p) => p.list_request(page),
        }
    }

    fn delete_request(&self, name: &str) -> (req: HttpRequest) {
        match self {
            AnyPlatform::Gitlab(p) => p.delete_request(name),
            AnyPlatform::Github(p) => p.delete_request(name),
            AnyPlatform::Codeberg(p) => p.delete_request(name),
        }
    }

    fn lookup_key(&self, repo: &Repo) -> (key: String) {
        match self {
            AnyPlatform::Gitlab(p) => p.lookup_key(repo),
            AnyPlatform::Github(p) => p.lookup_key(repo),
            AnyPlatform::Codeberg(p) => p.lookup_key(repo),
        }
    }

    fn as_stored(&self, repo: &Repo) -> (stored: Repo) {
        match self {
            AnyPlatform::Gitlab(p) => p.as_stored(repo),
            AnyPlatform::Github(p) => p.as_stored(repo),
            AnyPlatform::Codeberg(p) => p.as_stored(repo),
        }
    }
}

/// The first setting that a platform of type `kind` needs and the
/// configuration lacks: user name before token, and for Gitlab the custom
/// address last. `None` when nothing is missing.
pub open spec fn missing_setting(data: ConfigData, kind: PlatformType) -> Option<ConfigKey> {
    match kind {
        PlatformType::Gitlab => crate::gitlab::config::first_missing(data),
        PlatformType::Github => if stored(data, ConfigKey::GithubUsername) is None {
            Some(ConfigKey::GithubUsername)
        } else if stored(data, ConfigKey::GithubToken) is None {
            Some(ConfigKey::GithubToken)
        } else {
            None
        },
        PlatformType::Codeberg => if stored(data, ConfigKey::CodebergUsername) is None {
            Some(ConfigKey::CodebergUsername)
        } else if stored(data, ConfigKey::CodebergToken) is None {
            Some(ConfigKey::CodebergToken)
        } else {
            None
        },
    }
}

/// The platform of type `kind` that a configuration describes which lacks
/// none of its settings. An empty custom address stands for Gitlab's own.
pub open spec fn configured(data: ConfigData, kind: PlatformType) -> PlatformView {
    match kind {
        PlatformType::Gitlab => GitlabPlatform::model_of(
            stored(data, ConfigKey::GitlabUsername)->0,
            stored(data, ConfigKey::GitlabToken)->0,
            if stored(data, ConfigKey::GitlabCustomUrl)->0.len() == 0 {
                None
            } else {
                stored(data, ConfigKey::GitlabCustomUrl)
            },
        ),
        PlatformType::Github => GithubPlatform::model_of(
            stored(data, ConfigKey::GithubUsername)->0,
            stored(data, ConfigKey::GithubToken)->0,
        ),
        PlatformType::Codeberg => CodebergPlatform::model_of(
            stored(data, ConfigKey::CodebergUsername)->0,
            stored(data, ConfigKey::CodebergToken)->0,
        ),
    }
}

/// The type of a chosen platform.
pub open spec fn chosen_kind(p: AnyPlatform) -> PlatformType {
    match p {
        AnyPlatform::Gitlab(_) => PlatformType::Gitlab,
        AnyPlatform::Github(_) => PlatformType::Github,
        AnyPlatform::Codeberg(_) => PlatformType::Codeberg,
    }
}

/// Get the platform to use: the platform of type `kind` as the
/// configuration describes it, if the configuration holds every setting
/// that it needs; else the first setting that is missing.
pub fn get_plateform(config: &GitMoverConfig, kind: PlatformType) -> (res: Result<
    AnyPlatform,
    ConfigKey,
>)
    ensures
        match res {
            Ok(p) => missing_setting(config.config_data, kind) is None && chosen_kind(p) == kind
                && p.model() == configured(config.config_data, kind),
            Err(key) => missing_setting(config.config_data, kind) == Some(key),
        },
{
    match kind {
        PlatformType::Gitlab => match GitlabConfig::get_plateform(config) {
            Ok(p) => Ok(AnyPlatform::Gitlab(p)),
            Err(key) => Err(key),
        },
        PlatformType::Github => match GithubConfig::get_plateform(config) {
            Ok(p) => Ok(AnyPlatform::Github(p)),
            Err(key) => Err(key),
        },
        PlatformType::Codeberg => match CodebergConfig::get_plateform(config) {
            Ok(p) => Ok(AnyPlatform::Codeberg(p)),
            Err(key) => Err(key),
        },
    }
}

} // verus!
