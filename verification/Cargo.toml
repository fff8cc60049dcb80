[package]
name = "xorc_notifications"
version = "0.1.0"
edition = "2021"
publish = false

[dependencies]
heck = "=0.5.0"
regex = "=1.13.1"
serde = { version = "=1.0.229", features = ["derive"] }
serde_json = "=1.0.154"
toml = "=1.1.8"
lazy_static = "=1.5.1"
futures = "=0.3.34"
tokio = { version = "=1.54.1", features = ["full"] }
rdkafka = "=0.39.0"
a2 = "=0.10.0"
fcm = "=0.9.2"
web-push = "=0.11.0"
hyper = { version = "=0.14.32", features = ["full"] }
hyper-tls = "=0.5.0"
prometheus = "=0.14.0"
histogram = "=1.6.4"
base64 = "=0.23.1"
slog = "=2.8.2"
slog-scope = "=4.4.1"
slog-term = "=2.9.2"
slog-async = "=2.8.0"
slog-json = "=2.6.1"
log = "=0.4.35"
env_logger = "=0.11.11"
