[package]
name = "gxt"
version = "0.1.0"
edition = "2021"
publish = false

[dependencies]
anyhow = "=1.0.104"
axum = "0.8"
blake3 = "=1.8.7"
bs58 = "=0.5.1"
chacha20poly1305 = "=0.10.1"
clap = { version = "=4.6.7", features = ["derive"] }
ed25519-dalek = { version = "=2.2.0", features = ["rand_core"] }
hex = "=0.4.3"
hkdf = "=0.12.4"
rand = "=0.8.8"
serde = { version = "=1.0.229", features = ["derive"] }
serde_cbor = "=0.11.2"
serde_json = "=1.0.154"
sha2 = "=0.10.9"
thiserror = "=1.0.69"
time = { version = "=0.3.55", features = ["parsing"] }
tokio = { version = "1", features = ["macros", "net", "rt-multi-thread"] }
x25519-dalek = { version = "=2.0.1", features = ["static_secrets"] }
zstd = "=0.13.3"
