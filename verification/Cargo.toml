[package]
name = "stratum"
version = "0.1.0"
edition = "2021"
publish = false

[dependencies]
bitcoin_hashes = "=0.12.0"
bs58 = "=0.5.1"
ed25519-dalek = "=3.0.0"
hex = "=0.4.3"
serde_json = "=1.0.151"
snow = "=0.10.0"
tokio = { version = "=1.53.2", features = ["time"] }
tokio-util = { version = "=0.7.19", features = ["codec"] }

[dev-dependencies]
tokio = { version = "=1.53.2", features = ["rt", "time"] }
