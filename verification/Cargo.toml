[package]
name = "talpid_core"
version = "0.1.0"
edition = "2021"
publish = false

[dependencies]
error-chain = { version = "0.12", default-features = false }
futures = "0.1"
log = "0.4"
serde = { version = "1.0", features = ["derive"] }
