[package]
name = "epp_client"
version = "0.1.0"
edition = "2021"
publish = false

[dependencies]
instant-xml = "*"
serde = { version = "1", features = ["derive"] }
schemars = "*"
