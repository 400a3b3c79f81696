[package]
name = "tokio_bichannel"
version = "0.1.0"
edition = "2021"
publish = false

[dependencies]
tokio = { version = "=1.54.1", features = ["sync"] }

[dev-dependencies]
tokio = { version = "=1.54.1", features = ["rt"] }
