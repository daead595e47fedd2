[package]
name = "latency_reader"
version = "0.1.0"
edition = "2021"
publish = false

[dependencies]
image = "*"
async-channel = "*"
message-io = "*"
serde = { version = "*", features = ["derive"] }
toml = "*"
xcap = "*"
leptess = "*"
