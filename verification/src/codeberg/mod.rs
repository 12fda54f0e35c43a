//! Codeberg API module.
pub mod config;
pub mod platform;
pub mod repo;

pub use config::CodebergConfig;
pub use platform::{CodebergPlatform, CODEBERG_URL};
pub use repo::CodebergRepo;
