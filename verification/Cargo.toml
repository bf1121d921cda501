[package]
name = "feedhub"
version = "0.1.0"
edition = "2021"
publish = false

[dependencies]
futures = "0.3"
tokio = { version = "1", features = ["macros", "rt-multi-thread", "sync"] }
tokio-tungstenite = { version = "0.21", features = ["rustls-tls-webpki-roots"] }
tungstenite = "0.21"
url = "2"
warp = { version = "0.3", default-features = false, features = ["websocket"] }

[dev-dependencies]
serde_json = "1"
