[package]
name = "webview_bridge"
version = "0.1.0"
edition = "2021"
publish = false

[dependencies]
crossbeam = "*"
rmp-serde = "*"
serde = { version = "*", features = ["derive"] }
