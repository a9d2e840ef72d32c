[package]
name = "furrctorio"
version = "0.1.0"
edition = "2021"
publish = false

[dependencies]
semver = "1"
sha1 = "0.10"
serde = { version = "1", features = ["derive"] }
serde_json = "1"
reqwest = { version = "0.12", features = ["json"] }
url = "2"
urlencoding = "2"
chrono = { version = "0.4", features = ["serde"] }
futures = "0.3"
dirs = "*"
