[package]
name = "portal"
version = "0.1.0"
edition = "2021"
publish = false

[dependencies]
semver = "=1.0.28"
sha2 = "=0.10.9"
hex = "=0.4.3"
chrono = "=0.4.45"
urlencoding = "=2.1.3"
dashmap = "=6.2.1"
uuid = { version = "=1.29.0", features = ["v4", "serde"] }
serde = { version = "=1.0.229", features = ["derive"] }
serde_json = "=1.0.154"
tokio = { version = "=1.54.1", features = ["full"] }
anyhow = "=1.0.104"
thiserror = "=2.0.21"
clap = { version = "=4.6.7", features = ["derive", "env"] }
rand = "=0.9.5"
dirs = "=6.0.0"
reqwest = { version = "=0.12.28", default-features = false, features = ["json"] }
rusqlite = { version = "=0.41.1", features = ["bundled"] }
tracing = "=0.1.44"
tracing-subscriber = { version = "0.3", features = ["env-filter"] }
jsonwebtoken = "9"
axum = { version = "0.8", features = ["ws"] }
tokio-tungstenite = "*"
futures-util = "0.3"
rmcp = { version = "*", features = ["client", "server", "transport-child-process", "transport-io", "transport-streamable-http-server"] }
tower = "0.5"
mime_guess = "2"
