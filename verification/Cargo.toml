[package]
name = "ether_provider"
version = "0.1.0"
edition = "2021"
publish = false

[dependencies]
alloy-network = "=2.5.0"
alloy-primitives = "=1.7.3"
alloy-provider = { version = "=2.5.0", default-features = false, features = ["ipc", "reqwest", "trace-api", "ws-base"] }
alloy-rpc-types-eth = "=2.5.0"
alloy-rpc-types-trace = "=2.5.0"
url = "=2.5.8"
