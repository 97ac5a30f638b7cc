[package]
name = "editor_core"
version = "0.1.0"
edition = "2021"
publish = false

[dependencies]
anyhow = "1"
chardetng = "0.1"
clap = { version = "4", features = ["derive"] }
encoding_rs = "0.8"
futures-util = "0.3"
lsp-types = "0.97"
notify = "6"
nucleo = "0.5"
portable-pty = "0.8"
serde = { version = "1", features = ["derive"] }
serde_json = "1"
tokio = { version = "1", features = ["full"] }
tokio-tungstenite = "0.24"
url = "2"
uuid = { version = "1", features = ["v4"] }
walkdir = "2"
