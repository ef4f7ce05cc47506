[package]
name = "send"
version = "0.1.0"
edition = "2021"
publish = false

[dependencies]
jsonxf = "1"
reqwest = { version = "0.12", features = ["cookies", "multipart", "stream"] }
tokio = { version = "1", features = ["fs", "rt"] }
