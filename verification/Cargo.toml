[package]
name = "mlb-oracle"
version = "0.1.0"
edition = "2021"
publish = false

[dependencies]
chrono = "0.4"
clap = { version = "4", features = ["derive"] }
itertools = "0.12"
log = "0.4"
rand = "0.8"
serde_json = "1"
stderrlog = "0.6"
