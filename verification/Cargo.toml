[package]
name = "infocard"
version = "0.1.0"
edition = "2021"
publish = false

[dependencies]
chrono = "=0.4.45"
psutil = { version = "=3.3.0", default-features = false, features = ["memory", "host", "process"] }
serde = { version = "=1.0.229", features = ["derive"] }
serde_yaml = "=0.9.34"
strum = "=0.25.0"
strum_macros = "=0.25.3"
whoami = "=1.6.1"
