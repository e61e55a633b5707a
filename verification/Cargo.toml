[package]
name = "libratone_rs"
version = "0.1.0"
edition = "2021"
publish = false

[dependencies]
anyhow = "=1.0.104"
httparse = "=1.3.6"
net2 = "=0.2.39"
serde_json = { version = "=1.0.154", features = ["preserve_order"] }
