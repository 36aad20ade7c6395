[package]
name = "beacon_chain"
version = "0.1.0"
edition = "2021"
publish = false

[dependencies]
tree_hash = "=0.12.1"
ethereum_hashing = "=0.8.0"
parking_lot = "=0.13.0"
slog = "=2.8.2"
serde = { version = "=1.0.229", features = ["derive"] }
tokio = { version = "=1.54.1", features = ["rt", "net"] }
warp = { version = "=0.4.3", features = ["server"] }
