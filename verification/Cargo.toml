[package]
name = "key_chains"
version = "0.1.0"
edition = "2021"
publish = false

[dependencies]
aes = "0.8"
ascon-hash = "*"
ctr = "0.9"
hkdf = "0.12"
sha2 = "0.10"
sha3 = "0.10"
