//! Moves git repositories from one hosting platform to another.
//!
//! The crate holds the synchronization engine: the inventory diff, the
//! create-or-update protocol, paginated enumeration, the per-repository
//! transfer protocol and the run orchestration. Every decision is a verified
//! function from plain values to plain values; network, process and
//! filesystem work is left to the caller, which feeds outcomes back in.

pub mod cli;
pub mod codeberg;
pub mod config;
pub mod deletion;
pub mod diff;
pub mod dispatch;
pub mod errors;
pub mod fetch;
pub mod github;
pub mod gitlab;
pub mod http;
pub mod platform;
pub mod run;
pub mod sync;
pub mod text;
pub mod transfer;
pub mod upsert;
pub mod utils;
pub mod workspace;

pub use cli::GitMoverCli;
pub use dispatch::AnyPlatform;
pub use config::{ConfigData, GitMoverConfig};
pub use errors::{GitMoverError, GitMoverErrorKind};
pub use platform::{Platform, PlatformType};
pub use utils::{Direction, Repo};
