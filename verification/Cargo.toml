[package]
name = "plumcast"
version = "0.1.0"
edition = "2021"
publish = false

[dependencies]
bytecodec = "=0.4.15"
fibers = "=0.1.13"
fibers_rpc = "=0.2.18"
futures = "=0.1.31"
hyparview = "=0.1.3"
plumtree = "=0.1.1"
prometrics = "=0.1.13"
rand = "=0.6.5"
slog = "=2.8.2"
trackable = "=0.2.24"
