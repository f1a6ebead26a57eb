[package]
name = "booking_enrich"
version = "0.1.0"
edition = "2021"
publish = false

[dependencies]
argparse = "0.2"
chrono = { version = "0.4", default-features = false, features = ["std"] }
csv = "1"
serde_json = "1"
