[package]
name = "zerofs"
version = "0.1.0"
edition = "2021"
publish = false

[dependencies]
anyhow = "1"
arc-swap = "1"
futures = "0.3"
object_store = { version = "0.12", default-features = false }
sd-notify = "0.4"
slatedb = { version = "0.9", default-features = false, features = ["moka"] }
tokio = { version = "1", features = ["rt-multi-thread", "macros", "signal", "time"] }
tracing = "0.1"
tracing-subscriber = { version = "0.3", features = ["env-filter"] }
