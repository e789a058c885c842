[package]
name = "rats_lib"
version = "0.1.0"
edition = "2021"
publish = false

[dependencies]
calamine = "=0.36.1"
csv = "=1.4.0"
serde = { version = "1", features = ["derive"] }
serde_json = "1"

[dev-dependencies]
zip = "=8.6.0"
