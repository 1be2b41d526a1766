[package]
name = "ipfs_nft"
version = "0.1.0"
edition = "2021"
publish = false

[dependencies]
parity-scale-codec = { version = "=3.7.5", features = ["derive"] }
sp-core = { version = "=43.0.0", default-features = false }
log = "=0.4.35"
