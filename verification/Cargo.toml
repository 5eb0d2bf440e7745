[package]
name = "jira_tui"
version = "0.1.0"
edition = "2021"
publish = false

[dependencies]
anyhow = "=1.0.104"
app_dirs = "=1.2.1"
crossterm = { version = "=0.25.0", features = ["event-stream"] }
futures = "=0.3.34"
git2 = { version = "=0.18.3", default-features = false }
goji = "=0.1.1"
serde = { version = "=1.0.229", features = ["derive"] }
serde_json = "=1.0.151"
tokio = { version = "=1.53.2", features = ["rt-multi-thread", "macros", "sync", "time"] }
tui = "=0.19.0"
