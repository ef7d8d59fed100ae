[package]
name = "langserver"
version = "0.1.0"
edition = "2021"
publish = false

[dependencies]
base64 = "=0.13.1"
serde = { version = "=1.0.229", features = ["derive"] }
serde_json = "=1.0.154"
url = "=1.7.2"
hyper = "=0.10.16"
libc = "=0.2.191"
wait-timeout = "=0.2.1"
rustc-serialize = "0.3"
