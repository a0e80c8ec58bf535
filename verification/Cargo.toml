[package]
name = "remote_memory"
version = "0.1.0"
edition = "2021"
publish = false

[dependencies]
tonic = "*"
tonic-prost = "*"
prost = "*"
tokio = { version = "*", features = ["macros", "rt-multi-thread"] }
http = "*"
