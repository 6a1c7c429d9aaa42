[package]
name = "updater"
version = "0.1.0"
edition = "2021"
publish = false

[dependencies]
semver = "=1.0.28"
zip = { version = "=8.6.0", default-features = false, features = ["deflate"] }
reqwest = { version = "=0.13.5", default-features = false, features = ["blocking", "json"] }
serde = { version = "=1.0.229", features = ["derive"] }
