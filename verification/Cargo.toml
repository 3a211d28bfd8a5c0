[package]
name = "ethereum_transfer_searcher"
version = "0.1.0"
edition = "2021"
publish = false

[dependencies]
anyhow = "1"
env_logger = { version = "0.10", default-features = false }
ethers = { version = "2", default-features = false, features = ["ws"] }
futures = { version = "0.3", default-features = false, features = ["std"] }
log = "0.4"
rust_decimal = { version = "1", default-features = false, features = ["std"] }
time = "0.3"
tokio = { version = "1", features = ["rt-multi-thread", "signal", "time", "net"] }
tokio-util = "0.7"
