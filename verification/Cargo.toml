[package]
name = "dig_relay_protocol"
version = "0.3.0"
edition = "2021"
publish = false

[dependencies]
dig-identity = "*"
dig-message = "*"
serde = { version = "1", features = ["derive"] }
serde_json = "1"
serde-big-array = "0.5"
