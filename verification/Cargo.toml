[package]
name = "lsp_websocket"
version = "0.1.0"
edition = "2021"
publish = false

[dependencies]
tokio = { version = "*", features = ["full"] }
tokio-tungstenite = "*"
futures-util = "*"
tower-lsp = "*"
