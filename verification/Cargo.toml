[package]
name = "id_gateway"
version = "0.1.0"
edition = "2021"
publish = false

[dependencies]
concordium-rust-sdk = "=10.0.0"
hex = "=0.4.3"
log = "=0.4.34"
rand = "=0.8.8"
serde = { version = "=1.0.229", features = ["derive"] }
serde_json = "=1.0.154"
tokio = { version = "=1.54.1", features = ["macros", "rt-multi-thread", "time"] }
warp = "=0.3.7"
