[package]
name = "eth_block_executor"
version = "0.1.0"
edition = "2021"
publish = false

[dependencies]
alloy-consensus = { version = "1", default-features = false, features = ["std"] }
alloy-eips = { version = "1", default-features = false, features = ["std"] }
alloy-hardforks = { version = "0.2", default-features = false }
alloy-primitives = { version = "1", default-features = false, features = ["std"] }
revm = { version = "27", default-features = false, features = ["std"] }
