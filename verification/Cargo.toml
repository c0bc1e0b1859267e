[package]
name = "sentry_mattermost"
version = "0.1.0"
edition = "2021"
publish = false

[dependencies]
axum = "0.7"
hex = "0.4"
hmac = "0.12"
minreq = { version = "2", features = ["json-using-serde"] }
serde = { version = "1", features = ["derive"] }
serde_json = "1"
sha2 = "0.10"
tokio = { version = "1", features = ["macros", "rt-multi-thread", "net"] }
toml = "0.8"
tracing = "0.1"
tracing-subscriber = "0.3"
url = "2"
