[package]
name = "slog_bunyan"
version = "0.1.0"
edition = "2021"
publish = false

[dependencies]
hostname = "0.3"
slog = "2"
slog-json = "2"
time = { version = "0.3", features = ["formatting", "local-offset"] }

[dev-dependencies]
serde_json = "1"
