[package]
name = "beacon_ops"
version = "0.1.0"
edition = "2021"
publish = false

[dependencies]
tree_hash = "=0.5.2"
slog = "=2.8.2"
tokio = { version = "=1.54.1", features = ["sync"] }
warp = { version = "=0.3.7", default-features = false }
