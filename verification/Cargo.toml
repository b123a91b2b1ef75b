[package]
name = "trade_engine"
version = "0.1.0"
edition = "2021"
publish = false

[dependencies]
anyhow = "*"
config = { version = "*", default-features = false, features = ["yaml"] }
env_logger = "*"
log = "*"
serde = { version = "*", features = ["derive"] }
uniswap-sdk-core = "*"
