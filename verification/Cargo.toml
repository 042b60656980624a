[package]
name = "sniper_core"
version = "0.1.0"
edition = "2021"
publish = false

[dependencies]
ethers-core = "=2.0.14"
ethers-providers = { version = "=2.0.14", default-features = false, features = ["ws"] }
revm = { version = "=3.3.0", default-features = false, features = ["std", "ethersdb"] }
revm-interpreter = { version = "~1.1", default-features = false }
revm-precompile = { version = "~2.0", default-features = false }
revm-primitives = { version = "~1.1", default-features = false }
hex = "=0.4.3"
serde = { version = "=1.0.229", features = ["derive"] }
serde_json = "=1.0.154"
tokio = { version = "=1.54.1", features = ["rt-multi-thread", "macros", "sync"] }
futures = "=0.3.34"
lazy_static = "=1.5.1"
reqwest = { version = "=0.11.27", default-features = false }
bigdecimal = { version = "=0.3.1", default-features = false }
