[package]
name = "iced_trade"
version = "0.1.0"
edition = "2021"
publish = false

[dependencies]
hmac = "=0.12.1"
sha2 = "=0.10.9"
hex = "=0.4.3"
serde = { version = "1", features = ["derive"] }
serde_json = "1"
chrono = "0.4"
tokio = { version = "1", features = ["full"] }
futures = "0.3"
reqwest = { version = "0.12", default-features = false, features = ["json", "rustls-tls"] }
async-tungstenite = { version = "0.28", features = ["tokio-runtime", "tokio-rustls-webpki-roots"] }
log = "0.4"
fern = "0.6"
anyhow = "1"
thiserror = "1"
uuid = { version = "1", features = ["v4", "serde"] }
sonic-rs = "0.3"
bytes = "1"
fastwebsockets = { version = "0.8", features = ["upgrade"] }
hyper = { version = "1", features = ["client", "http1"] }
hyper-util = { version = "0.1", features = ["tokio"] }
http-body-util = "0.1"
tokio-rustls = "0.24"
webpki-roots = "0.25"
