[package]
name = "keystore"
version = "0.1.0"
edition = "2021"
publish = false

[dependencies]
der = { version = "0.7", features = ["alloc", "oid", "pem", "std", "zeroize"] }
spki = { version = "0.7", features = ["std"] }
pkcs8 = { version = "0.10", features = ["encryption", "pem", "std"] }
pkcs1 = { version = "0.7", features = ["pem", "std", "zeroize"] }
sec1 = { version = "0.7", features = ["pem", "std"] }
pem-rfc7468 = { version = "0.7", features = ["alloc", "std"] }
rsa = { version = "0.9" }
elliptic-curve = { version = "0.13", features = ["arithmetic", "pem", "pkcs8", "sec1", "std"] }
p256 = { version = "0.13", features = ["arithmetic", "pem", "pkcs8", "std"] }
p384 = { version = "0.13", features = ["arithmetic", "pem", "pkcs8", "std"] }
k256 = { version = "0.13", features = ["arithmetic", "pem", "pkcs8", "std"] }
rand = { version = "0.8" }
