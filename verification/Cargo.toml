[package]
name = "connector_core"
version = "0.1.0"
edition = "2021"
publish = false

[dependencies]
iso_currency = "=0.7.1"
isocountry = "=0.3.2"
time = "=0.3.55"
serde = { version = "=1.0.229", features = ["derive"] }
serde_json = "=1.0.151"
url = { version = "=2.5.8", features = ["serde"] }
