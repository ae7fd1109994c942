[package]
name = "epl_backend"
version = "0.1.0"
edition = "2021"
publish = false

[dependencies]
candid = "*"
ic-cdk = "*"
ic-stable-structures = "*"
serde = { version = "1", features = ["derive"] }
