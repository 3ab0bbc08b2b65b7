[package]
name = "morningstar"
version = "0.1.0"
edition = "2021"
publish = false

[dependencies]
anyhow = "=1.0.104"
bitflags = { version = "=2.13.2", features = ["serde"] }
chrono = { version = "=0.4.45", features = ["serde"] }
half = "=2.7.1"
serde = { version = "=1.0.229", features = ["derive"] }
tokio-modbus = "=0.17.0"
tokio-serial = "=5.5.0"
uom = { version = "=0.38.0", features = ["serde"] }
