[package]
name = "virtualizationservice"
version = "0.1.0"
edition = "2021"
publish = false

[dependencies]
anyhow = "1"
ciborium = "0.2"
clap = "4"
coset = "0.3"
hex = "0.4"
itertools = "0.10"
libc = "0.2"
log = "0.4"
semver = "1"
serde = { version = "1", features = ["derive"] }
serde_json = "1"
tinyvec = "1"
vsock = "0.3"
zip = { version = "0.6", default-features = false, features = ["deflate"] }
