[package]
name = "surreal_boundary"
version = "0.1.0"
edition = "2021"
publish = false

[dependencies]
tokio = { version = "*", features = ["rt-multi-thread"] }
jni = "*"
once_cell = "*"
