[package]
name = "grlm"
version = "0.1.0"
edition = "2021"
publish = false

[dependencies]
parking_lot = "0.12"
docopt = "1"
serde = "1"
serde_derive = "1"
serde_json = "1"
futures = "0.1"
hyper = "0.12"
hyper-tls = "0.3"
tokio-core = "0.1"
failure = "0.1"
indicatif = "0.11"
libc = "0.2"
base64 = "0.13"
