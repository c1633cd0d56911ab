[package]
name = "layerzero_dvn"
version = "0.1.0"
edition = "2021"
publish = false

[dependencies]
alloy-primitives = { version = "=0.8.26", features = ["serde"] }
alloy-sol-types = "=0.8.26"
async-trait = "=0.1.92"
color-eyre = "=0.6.5"
k256 = { version = "=0.13.4", features = ["ecdsa"] }
serde = { version = "=1.0.229", features = ["derive"] }
serde_json = "=1.0.154"
tokio = { version = "=1.54.1", features = ["io-std", "io-util", "macros", "rt-multi-thread", "time"] }
