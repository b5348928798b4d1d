[package]
name = "tinyssh"
version = "0.1.0"
edition = "2021"
publish = false

[dependencies]
aes = "0.8"
ctr = "0.9"
sha2 = "0.10"
ed25519-dalek = "1"
x25519-dalek = "1"
rand_core = { version = "0.5", features = ["getrandom"] }
base64 = "0.21"

[dev-dependencies]
hmac-sha256 = "1"
