[package]
name = "tetra-bluestation"
version = "0.1.0"
edition = "2021"
publish = false

[dependencies]
chrono-tz = "=0.10.4"
crossbeam-channel = "=0.5.17"
rustls-pemfile = "=2.2.0"
serde = { version = "=1.0.229", features = ["derive"] }
toml = "=0.8.23"
tracing = "=0.1.44"
