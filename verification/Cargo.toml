[package]
name = "tlc_core"
version = "0.1.0"
edition = "2021"
publish = false

[dependencies]
anyhow = "*"
clap = { version = "*", features = ["derive"] }
config = { version = "*", default-features = false, features = ["toml"] }
dialoguer = "*"
futures = "*"
indicatif = "*"
reqwest = { version = "*", default-features = false, features = ["stream", "http2"] }
reqwest-middleware = "*"
reqwest-retry = "*"
serde = { version = "*", features = ["derive"] }
thiserror = "*"
tokio = { version = "*", features = ["fs", "io-util", "macros", "rt-multi-thread", "signal", "sync"] }
tokio-util = "*"
