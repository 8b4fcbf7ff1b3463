[package]
name = "kdb_plugin"
version = "0.1.0"
edition = "2021"
publish = false

[dependencies]
async-nats = "0.37"
futures = "0.3"
kxkdb = { version = "0.1.0", features = ["api"] }
libc = "0.2"
tokio = { version = "1", features = ["full"] }
