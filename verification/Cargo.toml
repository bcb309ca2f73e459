[package]
name = "mc_updater"
version = "0.1.0"
edition = "2021"
publish = false

[dependencies]
hex = "*"
sha1 = "*"
mc_auth = "*"
reqwest = { version = "*", default-features = false }
serde = { version = "*", features = ["derive"] }
serde_derive = "*"
serde_json = "*"
tokio = { version = "*", features = ["rt-multi-thread", "macros", "fs", "io-util"] }
zip-extract = "*"
