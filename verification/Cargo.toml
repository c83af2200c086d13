[package]
name = "modbus-client"
version = "0.1.0"
edition = "2021"
publish = false

[dependencies]
mime_guess = "=2.0.5"
anyhow = "=1.0.104"
async-trait = "=0.1.92"
axum = { version = "=0.8.9", features = ["ws"] }
futures-util = "=0.3.34"
rust-embed = { version = "=8.13.0", features = ["interpolate-folder-path"] }
serde = { version = "=1.0.229", features = ["derive"] }
serde_json = "=1.0.154"
tokio = { version = "=1.54.1", features = ["full"] }
tokio-modbus = { version = "=0.16.1", default-features = false, features = ["tcp"] }
tracing = "=0.1.44"
tracing-subscriber = { version = "=0.3.23", features = ["env-filter"] }
ts-rs = "=10.1.0"
