[package]
name = "wirt_api"
version = "0.1.0"
edition = "2021"
publish = false

[dependencies]
base64 = "=0.13.1"
ed25519-dalek = "=1.0.1"
log = "=0.4.34"
pretty_env_logger = "=0.4.0"
serde = { version = "=1.0.229", features = ["derive"] }
tokio = { version = "=0.2.25", features = ["blocking", "macros", "rt-threaded"] }
warp = "=0.2.5"
