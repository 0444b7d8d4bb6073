[package]
name = "zn"
version = "0.1.0"
edition = "2021"
publish = false

[dependencies]
aho-corasick = "=1.1.5"
regex = "=1.13.1"
serde = { version = "=1.0.229", features = ["derive"] }
serde_json = "=1.0.154"
sha2 = "=0.10.9"
hex = "=0.4.3"
uuid = { version = "=1.29.0", features = ["v4"] }
base64 = "=0.22.1"
anyhow = "=1.0.104"
chrono = "=0.4.45"
dashmap = "=6.2.1"
lru = "=0.12.5"
rand = "=0.8.8"
lazy_static = "=1.5.1"
prometheus = { version = "=0.13.4", default-features = false }
tracing = "=0.1.44"
tracing-subscriber = "=0.3.23"
clap = { version = "=4.6.7", features = ["derive"] }
tokio = { version = "=1.54.1", features = ["rt-multi-thread", "macros", "io-std", "io-util", "sync", "time", "process"] }
rusqlite = { version = "=0.32.1", features = ["bundled"] }
aes-gcm = "=0.10.3"
argon2 = "=0.5.3"
ed25519-dalek = "2"
pqcrypto-dilithium = "0.5"
pqcrypto-traits = "0.3"
