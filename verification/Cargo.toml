[package]
name = "log_shipper"
version = "0.1.0"
edition = "2021"
publish = false

[dependencies]
anyhow = "1"
chrono = "0.4"
dialoguer = "0.11"
futures = "0.3"
governor = "0.6"
hostname = "0.4"
nonzero_ext = "0.3"
regex = "1"
reqwest = { version = "0.12", features = ["blocking", "json"] }
serde = { version = "1", features = ["derive"] }
signal-hook = "0.3"
toml = "0.8"
whoami = "1"
