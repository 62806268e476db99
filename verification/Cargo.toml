[package]
name = "pingpong"
version = "0.1.0"
edition = "2021"
publish = false

[dependencies]
wtransport = { version = "=0.1.14", features = ["dangerous-configuration"] }
tokio = { version = "=1.54.1", features = ["full"] }
async-trait = "=0.1.92"
tracing = "=0.1.44"
tracing-subscriber = "=0.3.23"
tracing-panic = "=0.1.3"
