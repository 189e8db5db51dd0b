[package]
name = "inventory_extensions"
version = "0.1.0"
edition = "2021"
publish = false

[dependencies]
anyhow = "1"
log = "0.4"
semver = "1"
serde = { version = "1", features = ["derive"] }
toml = "0.8"
