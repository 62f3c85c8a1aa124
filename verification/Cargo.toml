[package]
name = "tsp_ltv"
version = "0.1.0"
edition = "2021"
publish = false

[dependencies]
const-oid = { version = "0.9", features = ["db"] }
der = { version = "0.7", features = ["alloc", "oid"] }
digest = "0.10"
ecdsa = { version = "0.16", features = ["verifying", "der", "pkcs8"] }
ed25519-dalek = "2"
md-5 = { version = "0.10", features = ["oid"] }
p256 = { version = "0.13", features = ["ecdsa", "pkcs8"] }
p384 = { version = "0.13", features = ["ecdsa", "pkcs8"] }
p521 = { version = "0.13", features = ["ecdsa", "pkcs8"] }
rsa = { version = "0.9", features = ["sha2"] }
sha1 = { version = "0.10", features = ["oid"] }
sha2 = { version = "0.10", features = ["oid"] }
spki = { version = "0.7", features = ["alloc"] }
x509-cert = { version = "0.2", features = ["builder"] }

[dev-dependencies]
rand = "0.8"
