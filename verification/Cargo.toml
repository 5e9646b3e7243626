[package]
name = "transcriber"
version = "0.1.0"
edition = "2021"
publish = false

[dependencies]
mime_guess = "2"
reqwest = { version = "0.12", default-features = false, features = ["multipart", "stream"] }
tokio = { version = "1", default-features = false, features = ["fs", "rt", "macros"] }
tokio-util = { version = "0.7", default-features = false, features = ["codec"] }
