[package]
name = "openprot_digest"
version = "0.1.0"
edition = "2021"
publish = false

[dependencies]
sha2 = "=0.11.1"
hmac = "=0.13.0"
heapless = "=0.8.0"
hash32 = "=0.3.1"
zerocopy = { version = "=0.8.63", features = ["derive"] }
zeroize = { version = "=1.9.1", features = ["derive"] }
rand_core = "=0.6.4"
embedded-io = "=0.6.1"
serde = { version = "=1.0.229", default-features = false, features = ["derive"] }
hubpack = "=0.1.2"
p384 = { version = "0.13", default-features = false, features = ["ecdsa"] }
ecdsa = "0.16"
