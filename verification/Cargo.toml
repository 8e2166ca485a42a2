[package]
name = "openduckrust"
version = "0.1.0"
edition = "2021"
publish = false

[dependencies]
crossbeam-channel = "=0.5.17"
anyhow = "*"
clap = { version = "*", features = ["derive"] }
serde = { version = "*", features = ["derive"] }
serde_json = "*"
tracing = "*"
tracing-subscriber = { version = "*", features = ["env-filter", "json"] }
spin_sleep = "*"
serialport = { version = "=4.10.1", default-features = false }
rand = "*"
gilrs = "*"
rodio = "*"
rppal = "*"
ndarray = "*"
ort = { version = "=2.0.0-rc.13", default-features = false, features = ["std"] }
