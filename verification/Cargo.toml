[package]
name = "raft_state"
version = "0.1.0"
edition = "2021"

[dependencies]
tokio = { version = "*", default-features = false, features = ["time"] }
