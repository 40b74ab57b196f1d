[package]
name = "pallet_vm"
version = "0.1.0"
edition = "2021"
publish = false

[dependencies]
evm = { version = "0.41", default-features = false }
frame-support = "38.0"
frame-system = "38.0"
pallet-authorship = "38.0"
pallet-session = "38.0"
pallet-timestamp = "37.0"
parity-scale-codec = { version = "3.6", features = ["derive"] }
scale-info = { version = "2.11", features = ["derive"] }
serde = { version = "1", features = ["derive"] }
sp-core = "34.0"
sp-runtime = "39.0"
sp-std = "14.0"
