[package]
name = "iplookup"
version = "0.1.0"
edition = "2021"
publish = false

[dependencies]
anyhow = "1"
bytecodec = "*"
rand = "0.8"
stun_codec = "*"
tokio = { version = "1", features = ["macros", "net", "rt-multi-thread", "time"] }
