[package]
name = "synth_core"
version = "0.1.0"
edition = "2021"
publish = false

[dependencies]
anyhow = "*"
cpal = "*"
tokio = { version = "*", features = ["rt", "rt-multi-thread"] }
