[package]
name = "ama"
version = "0.1.0"
edition = "2021"
publish = false

[dependencies]
anyhow = "*"
envy = "*"
futures-util = "*"
reqwest = { version = "*", default-features = false, features = ["rustls-tls"] }
rustls = { version = "*", default-features = false, features = ["ring", "std"] }
serde = { version = "*", features = ["derive"] }
serde_json = "*"
strum = { version = "*", features = ["derive"] }
tokio = { version = "*", features = ["rt-multi-thread", "macros", "signal", "sync", "time", "net"] }
tokio-stream = "*"
tokio-tungstenite = { version = "*", features = ["rustls-tls-webpki-roots"] }
tracing = "*"
tracing-subscriber = { version = "*", features = ["env-filter", "json"] }
url = "*"
