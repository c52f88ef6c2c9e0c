[package]
name = "tee-server"
version = "0.1.0"
edition = "2021"
publish = false

[dependencies]
aes-gcm = "0.10"
anyhow = "1"
aws-nitro-enclaves-nsm-api = "0.4"
base64 = "0.22"
clap = { version = "4", features = ["derive"] }
hkdf = "0.12"
hyper = { version = "0.14", features = ["client", "http1", "tcp"] }
hyperlocal = "0.8"
jsonrpsee = { version = "0.24", features = ["server", "macros"] }
ml-kem = "0.2"
p256 = { version = "0.13", features = ["ecdh"] }
rand = "0.8"
rand_core = { version = "0.6", features = ["getrandom"] }
serde = { version = "1", features = ["derive"] }
serde_bytes = "0.11"
serde_json = "1"
sha2 = "0.10"
tokio = { version = "1", features = ["rt-multi-thread", "macros", "sync"] }
uuid = { version = "1", features = ["v4", "serde"] }
x25519-dalek = { version = "2", features = ["static_secrets"] }
