[package]
name = "git_mover"
version = "1.0.0"
edition = "2021"
publish = false

[dependencies]
clap = { version = "4", features = ["derive"] }
env_logger = "0.11"
git2 = "0.20"
home = "0.5"
indicatif = "0.17"
log = "0.4"
rand = "0.9"
reqwest = { version = "0.12", features = ["json"] }
rpassword = "7"
serde = { version = "1", features = ["derive"] }
serde_json = "1"
tokio = { version = "1", features = ["macros", "rt-multi-thread", "process", "time"] }
toml = "0.8"
urlencoding = "2"
