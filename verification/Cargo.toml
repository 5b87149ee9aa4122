[package]
name = "my_raft"
version = "0.1.0"
edition = "2021"
publish = false

[dependencies]
rand = "0.8"
serde = { version = "1", features = ["derive"] }
bincode = "1"
log = "0.4"
simplelog = "0.12"
