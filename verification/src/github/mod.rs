//! GitHub API module.
pub mod config;
pub mod platform;
pub mod repo;

pub use config::GithubConfig;
pub use platform::{GithubPlatform, GITHUB_URL};
pub use repo::RepoGithub;
