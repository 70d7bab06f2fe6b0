[package]
name = "config_registry"
version = "0.1.0"
edition = "2021"
publish = false

[dependencies]
serde_json = "*"
url = "*"
ic-stable-structures = "*"
candid = "*"
ic-cdk = "*"
serde = { version = "*", features = ["derive"] }
serde_bytes = "*"
