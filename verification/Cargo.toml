[package]
name = "git_patch"
version = "0.1.0"
edition = "2021"
publish = false

[dependencies]
libp2p = { version = "=0.53.2", default-features = false, features = ["async-std", "cbor", "dns", "ed25519", "macros", "mdns", "noise", "request-response", "tcp", "yamux"] }
multibase = "*"
git2 = "*"
serde = { version = "*", features = ["derive"] }
serde_yaml = "*"
clap = { version = "*", features = ["derive"] }
async-std = "*"
async-trait = "*"
futures = "*"
env_logger = "*"
log = "*"
