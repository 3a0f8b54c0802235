[package]
name = "swap"
version = "0.1.0"
edition = "2021"
publish = false

[dependencies]
anyhow = "1"
bitcoin = { version = "0.26", features = ["use-serde"] }
config = { version = "*", default-features = false, features = ["toml"] }
dialoguer = "*"
libp2p = { version = "*", default-features = false, features = ["request-response", "cbor"] }
monero = "*"
rust_decimal = "1"
serde = { version = "1", features = ["derive"] }
thiserror = "1"
toml = "0.5"
tracing = "0.1"
url = { version = "2", features = ["serde"] }
