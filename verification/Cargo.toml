[package]
name = "libprotonup"
version = "0.1.0"
edition = "2021"
publish = false

[dependencies]
sha2 = "0.10"
flate2 = "1"
tar = "0.4"
lzma-rs = "0.3"
tempfile = "3"
serde = { version = "1", features = ["derive"] }
serde_json = "1"
