[package]
name = "port_check"
version = "0.1.0"
edition = "2021"
publish = false

[dependencies]
clap = { version = "4", features = ["derive"] }
colored = "2"
loki_weave = "*"
serde = { version = "1", features = ["derive"] }
serde_json = "1"
