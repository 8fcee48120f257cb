[package]
name = "btc5min_limit_order"
version = "0.1.0"
edition = "2021"
publish = false

[dependencies]
alloy = { version = "1", default-features = false, features = ["std", "signer-local"] }
alloy-sol-types = { version = "1", default-features = false, features = ["std"] }
anyhow = "1"
chrono = { version = "0.4", default-features = false, features = ["std", "clock"] }
chrono-tz = { version = "0.10", default-features = false, features = ["std"] }
clap = { version = "4", default-features = false, features = ["std", "derive", "help", "usage", "error-context"] }
env_logger = { version = "0.11", default-features = false }
futures = { version = "0.3", default-features = false, features = ["std"] }
hex = "0.4"
log = "0.4"
reqwest = { version = "0.12", default-features = false, features = ["json"] }
rust_decimal = { version = "1", default-features = false, features = ["std"] }
rustls = { version = "0.23", default-features = false, features = ["ring", "std"] }
serde = { version = "1", features = ["derive"] }
serde_json = "1"
tokio = { version = "1", features = ["rt-multi-thread", "macros", "signal", "sync", "time"] }
tokio-util = "0.7"
uuid = "1"
