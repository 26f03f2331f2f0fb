[package]
name = "mariam_flow"
version = "0.1.0"
edition = "2021"
publish = false

[dependencies]
tokio = { version = "=1.53.2", features = ["sync", "rt-multi-thread", "macros", "net", "time"] }
axum = "=0.8.9"
serde = { version = "=1.0.229", features = ["derive"] }
serde_json = "=1.0.151"
toml = "=1.1.6"
time = { version = "=0.3.55", features = ["formatting"] }
tracing = "=0.1.44"
tracing-subscriber = "=0.3.23"
rppal = { version = "=0.22.1", features = ["embedded-hal-0"] }
vl53l1x-uld = "=2.0.1"
