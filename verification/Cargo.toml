[package]
name = "ma_runtime"
version = "0.1.0"
edition = "2021"
publish = false

[dependencies]
anyhow = "=1.0.104"
axum = "=0.8.9"
ciborium = "=0.2.2"
clap = { version = "=4.6.7", features = ["derive", "env"] }
directories = "=6.0.0"
fluent = "=0.17.0"
ma-core = { version = "=0.16.1", default-features = false, features = ["acl", "kubo", "config"] }
serde_json = "=1.0.154"
serde_yaml = "=0.9.34"
tokio = { version = "=1.54.1", features = ["full"] }
tracing = "=0.1.44"
unic-langid = "=0.9.6"
zeroize = "=1.9.1"
