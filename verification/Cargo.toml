[package]
name = "transcriber"
version = "0.2.0"
edition = "2021"
publish = false

[dependencies]
anyhow = "1"
serde = { version = "1", features = ["derive"] }
serde_json = "1"
reqwest = { version = "0.12", default-features = false, features = ["json", "multipart", "rustls-tls"] }
tokio = { version = "1", features = ["full"] }
zbus = "5"
rusqlite = { version = "*", features = ["bundled"] }
dirs = "*"
tracing = "0.1"
tracing-subscriber = { version = "0.3", features = ["env-filter"] }
futures-util = "0.3"
tokio-tungstenite = { version = "*", features = ["rustls-tls-webpki-roots"] }
cpal = "*"
wl-clipboard-rs = "*"
async-channel = "2"
enigo = "*"
ashpd = "*"
gtk4 = "*"
libadwaita = "*"
gtk4-layer-shell = "*"
