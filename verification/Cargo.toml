[package]
name = "attestation"
version = "0.1.0"
edition = "2021"
publish = false

[dependencies]
base64 = "0.13"
chrono = { version = "0.4", default-features = false, features = ["std", "alloc"] }
httparse = "1"
pem = "1"
webpki = "0.21"
sha2 = "0.10"
rand = "0.8"
serde = { version = "1", features = ["derive"] }
serde_json = "1"
rustls = "0.19"
webpki-roots = "0.21"

[dev-dependencies]
rcgen = "0.9"
rsa = { version = "0.9", features = ["sha2"] }
