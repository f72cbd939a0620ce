[package]
name = "dmnd_client"
version = "0.1.0"
edition = "2021"
publish = false

[dependencies]
async-recursion = "=1.2.0"
binary_sv2 = "=1.2.1"
bitcoin = "=0.29.2"
codec_sv2 = { version = "=1.3.1", features = ["noise_sv2", "with_buffer_pool"] }
dashmap = "=6.2.1"
demand-share-accounting-ext = "=0.0.12"
demand-sv2-connection = "=0.0.4"
futures = "=0.3.34"
lazy_static = "=1.5.1"
minisign-verify = "=0.2.5"
nohash-hasher = "=0.2.0"
reqwest = { version = "=0.12.28", default-features = false, features = ["blocking", "json", "rustls-tls"] }
roles_logic_sv2 = "=1.2.3"
self_update = { version = "=0.42.0", default-features = false, features = ["rustls"] }
serde = { version = "1", features = ["derive"] }
serde_json = "1"
sv1_api = "=1.0.1"
tokio = { version = "=1.54.1", features = ["full"] }
tokio-util = { version = "=0.7.20", features = ["codec"] }
tracing = "=0.1.44"
