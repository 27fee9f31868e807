[package]
name = "bmp_protocol"
version = "0.1.0"
edition = "2021"
publish = false

[dependencies]
bgp-rs = "*"
bytes = "*"
hashbrown = "*"
serde = { version = "*", features = ["derive"] }
tokio = { version = "*", features = ["io-util"] }
tokio-util = { version = "*", features = ["codec"] }
