[package]
name = "ramm-sui-deploy"
version = "0.1.0"
edition = "2021"
publish = false

[dependencies]
anyhow = "1"
clap = "4"
colored = "2"
log = "0.4"
move-core-types = "0.0.3"
serde = { version = "1", features = ["derive"] }
signature = "2"
simplelog = "0.12"
sui-sdk = "0.0.0"
thiserror = "1"
tokio = { version = "1", features = ["macros", "rt-multi-thread"] }
toml = "0.8"
