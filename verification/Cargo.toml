[package]
name = "rtm_signature"
version = "0.1.0"
edition = "2021"
publish = false

[dependencies]
rust-crypto = "*"
rustc-serialize = "*"
rand = "*"
time = "*"
docopt = "*"
serde = { version = "*", features = ["derive"] }
