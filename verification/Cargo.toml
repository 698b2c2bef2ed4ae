[package]
name = "hrdf_parser"
version = "0.1.0"
edition = "2021"
publish = false

[dependencies]
chrono = { version = "=0.4.45", default-features = false, features = ["std"] }
log = "=0.4.34"
regex = "=1.13.1"
rustc-hash = "=2.1.3"
serde_json = "=1.0.154"

[dev-dependencies]
nom = "8"
