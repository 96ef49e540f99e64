[package]
name = "phonon_monte_carlo"
version = "0.1.0"
edition = "2021"
publish = false

[dependencies]
fastrand = "=2.5.0"
anyhow = "=1.0.104"
serde = { version = "=1.0.229", features = ["derive"] }
toml = "=1.1.8"
rayon = "=1.12.0"
arrow-array = "=60.1.0"
arrow-schema = "=60.1.0"
parquet = { version = "=60.1.0", default-features = false, features = ["arrow", "flate2-rust_backend"] }
pyo3 = "=0.30.1"
interp = "=2.1.2"
sci-rs = { version = "=0.4.1", features = ["std"] }
