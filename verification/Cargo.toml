[package]
name = "clockd"
version = "0.1.0"
edition = "2021"
publish = false

[dependencies]
async-broadcast = "=0.7.2"
async-io = "=2.6.0"
async-std = { version = "=1.13.2", features = ["unstable"] }
clap = { version = "=4.6.7", features = ["derive"] }
futures-lite = "=2.6.1"
maud = "=0.27.0"
rustix = { version = "=1.1.5", features = ["net"] }
serde = { version = "=1.0.229", features = ["derive"] }
serde_json = "=1.0.154"
tide = "=0.16.0"
tracing = "=0.1.44"
tracing-subscriber = "=0.3.23"
tz-rs = "=0.6.14"

[dev-dependencies]
nom = "7"
