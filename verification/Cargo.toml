[package]
name = "meowpad"
version = "0.1.0"
edition = "2021"
publish = false

[dependencies]
byteorder = "=1.5.0"
palette = "=0.7.7"
ciborium = "=0.2.2"
serde = { version = "=1.0.229", features = ["derive"] }
serde_json = "=1.0.154"
hidapi = "=2.6.7"
uuid = { version = "=1.29.0", features = ["v4"] }
thiserror = "=1.0.69"
toml = "0.8"
