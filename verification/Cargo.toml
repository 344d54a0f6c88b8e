[package]
name = "exam_service"
version = "0.1.0"
edition = "2021"
publish = false

[dependencies]
tokio = { version = "*", features = ["rt-multi-thread", "macros", "time", "sync"] }
tokio-stream = "*"
futures = "*"
tonic = "*"
