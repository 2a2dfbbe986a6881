[package]
name = "sshbridge"
version = "0.1.0"
edition = "2021"
publish = false

[dependencies]
anyhow = "=1.0.104"
axum = { version = "=0.8.9", features = ["ws"] }
bcrypt = "=0.19.3"
bytes = "=1.12.1"
chrono = "=0.4.45"
deadpool = "=0.13.1"
futures-util = "=0.3.34"
log = "=0.4.34"
mime_guess = "=2.0.5"
russh = "=0.64.1"
russh-sftp = "=3.0.1"
rust-embed = "=8.13.0"
serde = { version = "=1.0.229", features = ["derive"] }
serde_json = "=1.0.151"
sqlx = { version = "=0.8.6", default-features = false, features = ["runtime-tokio", "sqlite", "macros", "migrate"] }
time = { version = "=0.3.55", features = ["local-offset", "formatting"] }
tokio = { version = "=1.53.2", features = ["macros", "rt-multi-thread", "net", "io-util", "fs", "time", "sync", "signal"] }
tower-http = { version = "=0.7.1", features = ["cors"] }
tower-sessions = "=0.14.0"
tower-sessions-sqlx-store = { version = "=0.15.0", features = ["sqlite"] }
tracing = "=0.1.44"
tracing-subscriber = { version = "=0.3.23", features = ["env-filter"] }
validator = { version = "=0.21.0", features = ["derive"] }
