[package]
name = "umbral-pre"
version = "0.1.0"
edition = "2021"
publish = false

[dependencies]
k256 = { version = "0.13", default-features = false, features = ["arithmetic"] }
sha2 = { version = "0.10", default-features = false }
rand_core = { version = "0.6", default-features = false, features = ["getrandom"] }
zeroize = { version = "1", default-features = false, features = ["alloc"] }
generic-array = "0.14"
typenum = "1"
serde = { version = "1", default-features = false, features = ["alloc"] }
base64 = "0.22"
