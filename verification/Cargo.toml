[package]
name = "akiclick"
version = "1.3.0"
edition = "2021"
publish = false

[dependencies]
anyhow = "1"
enigo = "0.1"
image = { version = "0.25", default-features = false, features = ["png"] }
parking_lot = "0.12"
serde = { version = "1", features = ["derive"] }
serde_ini = "0.2"
serde_json = "1"
tracing = "0.1"
tracing-subscriber = { version = "0.3", features = ["env-filter"] }
