[package]
name = "tari_base_layer"
version = "0.1.0"
edition = "2021"
publish = false

[dependencies]
tari_crypto = "=0.24.1"
tari_utilities = "=0.10.0"
digest = "=0.10.7"
blake2 = "=0.10.6"
aes-gcm = "=0.11.1"
chacha20poly1305 = "=0.11.0"
rand = "=0.10.3"
bip39 = { version = "=3.0.0", features = ["all-languages"] }
log = "=0.4.34"
serde = { version = "=1.0.229", features = ["derive"] }
tokio = { version = "=1.54.1", features = ["sync"] }
async-trait = "=0.1.92"
