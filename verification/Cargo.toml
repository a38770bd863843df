[package]
name = "netservices"
version = "0.8.0"
edition = "2021"
publish = false

[dependencies]
io-reactor = "=0.5.2"
cyphernet = { version = "=0.5.4", features = ["ed25519", "x25519", "sha2", "eidolon", "noise_x25519", "noise_sha2", "dns", "multibase"] }
socket2 = "=0.5.10"
rand = "=0.8.8"
libc = "=0.2.191"
