[package]
name = "hostel_manager_backend"
version = "0.1.0"
edition = "2021"
publish = false

[dependencies]
candid = "*"
ic-cdk = "*"
ic-stable-structures = "0.5"
serde = { version = "*", features = ["derive"] }
