[package]
name = "wftpg"
version = "0.1.0"
edition = "2021"
publish = false

[dependencies]
libc = "0.2"
chrono = "0.4"
serde_json = "1"
md-5 = "0.10"
sha2 = "0.10"
hex = "0.4"
ipnet = "2"
rustls = { version = "0.23", default-features = false, features = ["ring", "std"] }
rustls-pemfile = "2"
anyhow = "1"
