[package]
name = "nft_marketplace"
version = "0.1.0"
edition = "2021"
publish = false

[dependencies]
frame-support = "*"
frame-system = "*"
sp-runtime = "*"
sp-std = "*"
parity-scale-codec = { version = "3", features = ["derive"] }
scale-info = { version = "2", features = ["derive"] }
