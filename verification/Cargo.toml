[package]
name = "circleci-tui-rs"
version = "0.1.0"
edition = "2021"
publish = false

[dependencies]
anyhow = "1"
chrono = "0.4"
serde = { version = "1", features = ["derive"] }
serde_json = "1"
reqwest = { version = "0.12", default-features = false, features = ["json", "blocking"] }
crossterm = "0.29"
ratatui = "*"
ratatui-core = "*"
ansi-to-tui = "*"
tokio = { version = "1", features = ["full"] }
futures = "0.3"
arboard = { version = "3", default-features = false }
confy = { version = "*", default-features = false, features = ["yaml_conf"] }
dirs = "*"
dotenvy = "0.15"
git2 = { version = "*", default-features = false }
