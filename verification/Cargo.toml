[package]
name = "ra_verifier"
version = "0.1.0"
edition = "2021"
publish = false

[dependencies]
arrayvec = "0.7"
base64 = "0.13"
chrono = "0.4"
serde_json = "1"
log = "0.4"
openssl = "0.10"
url = "2"
ws = { version = "0.9", features = ["ssl"] }
