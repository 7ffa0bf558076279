[package]
name = "bitwarden_credential"
version = "0.1.0"
edition = "2021"
publish = false

[dependencies]
cargo-credential = "*"
cfg-if = "*"
serde = { version = "*", features = ["derive"] }
serde_json = "*"
url = "*"
