[package]
name = "oyasumi_sidecar"
version = "0.1.0"
edition = "2021"
publish = false

[dependencies]
chrono = "0.4"
image = { version = "0.25", default-features = false, features = ["png"] }
log = "0.4"
portpicker = "0.1"
tokio = { version = "1", features = ["sync", "time", "rt-multi-thread", "macros"] }
