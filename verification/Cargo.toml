[package]
name = "net"
version = "0.1.0"
edition = "2021"
publish = false

[dependencies]
bevy = { version = "0.12", default-features = false }
bincode = "1.3"

[dev-dependencies]
serde = "1"
