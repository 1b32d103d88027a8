[package]
name = "graphyte"
version = "0.1.0"
edition = "2021"
publish = false

[dependencies]
ash = "=0.33.3"
ash-window = "=0.7.0"
crossbeam = "=0.8.5"
erupt = "=0.20.0"
raw-window-handle = "=0.3.4"
serde = { version = "=1.0.229", features = ["derive"] }
serde_cbor = "=0.11.2"
serde_json = "=1.0.154"
serde_yaml = "=0.9.34"
shard-ecs = "=0.2.7"
toml = "=0.8.23"
