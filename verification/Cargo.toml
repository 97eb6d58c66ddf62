[package]
name = "rfc003_swap"
version = "0.1.0"
edition = "2021"
publish = false

[dependencies]
sha2 = "=0.10.9"
blockchain_contracts = "=0.4.1"
bitcoin = "=0.25.2"
uuid = { version = "=0.8.2", features = ["v4"] }
serde_json = "=1.0.154"
chrono = "=0.4.45"
serde = { version = "=1.0.229", features = ["derive"] }
anyhow = "=1.0.104"
tokio = { version = "=1.54.1", features = ["rt", "rt-multi-thread", "sync", "time"] }
tracing = "=0.1.44"
log = "=0.4.34"
toml = "=0.5.11"
config = "=0.10.1"
rand = "=0.7.3"
url = "=2.5.8"
siren-types = "=0.2.2"
http = "=0.2.12"
http-api-problem = "=0.60.0"
diesel = { version = "=1.4.8", default-features = false }
