[package]
name = "ostrich_client"
version = "0.1.0"
edition = "2021"
publish = false

[dependencies]
ostrich-core = "*"
tokio = { version = "0.2", features = ["tcp", "io-util", "stream", "sync"] }
