[package]
name = "zipformer_ol"
version = "0.1.0"
edition = "2021"
publish = false

[dependencies]
eyre = "0.6"
tracing = "0.1"
sherpa-rs-sys = "*"
