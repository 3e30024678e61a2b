[package]
name = "lpc_iap"
version = "0.1.0"
edition = "2021"
publish = false

[dependencies]
clap = { version = "=4.6.7", features = ["derive"] }
serde = { version = "=1.0.229", features = ["derive"] }
serde_json = "=1.0.154"
cortex-m = "=0.7.10"
flash-algorithm = { version = "=0.7.0", default-features = false, features = ["erase-chip"] }
rtt-target = "=0.6.2"
