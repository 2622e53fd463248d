[package]
name = "ascot"
version = "0.1.0"
edition = "2021"
publish = false

[dependencies]
heapless = { version = "=0.9.3", features = ["serde"] }
hash32 = "=0.3.1"
serde = { version = "=1.0.229", features = ["derive"] }
serde_json = "=1.0.154"
axum = "=0.8.9"
tokio = { version = "=1.54.1", features = ["net", "rt-multi-thread", "macros"] }
tracing = "=0.1.44"
anyhow = "=1.0.104"
log = "=0.4.34"
edge-http = "=0.8.0"
embedded-io-async = "=0.7.0"
embedded-svc = "=0.29.0"
embassy-net = { version = "=0.9.1", features = ["tcp", "dns", "proto-ipv4", "medium-ethernet"] }
embassy-sync = "=0.8.0"
rust-mqtt = "=0.6.0"
esp-idf-svc = "=0.53.0"
toml-cfg = "=0.2.0"
