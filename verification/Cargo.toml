[package]
name = "bb8-tikv"
version = "0.1.0"
edition = "2021"
publish = false

[dependencies]
async-trait = "=0.1.92"
bb8 = "=0.8.6"
tikv-client = "=0.3.0"

[dev-dependencies]
tokio = { version = "=1.54.1", features = ["rt", "rt-multi-thread", "time"] }
