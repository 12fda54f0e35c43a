//! Gitlab API module
pub mod config;
pub mod platform;
pub mod repo;

pub use config::GitlabConfig;
pub use platform::{GitlabPlatform, GITLAB_URL};
pub use repo::{ForkRepo, GitlabRepo, GitlabRepoEdition};
