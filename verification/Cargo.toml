[package]
name = "unison"
version = "0.1.0"
edition = "2021"
publish = false

[dependencies]
zstd = "*"
crc32fast = "*"
serde_json = "*"
quinn = "*"
rustls = "*"
rcgen = "*"
rustls-pemfile = "*"
tokio = { version = "*", features = ["rt-multi-thread", "sync", "time", "net"] }
futures-util = "*"
