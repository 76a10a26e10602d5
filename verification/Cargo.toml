[package]
name = "yew-webview-bridge"
version = "0.1.0"
edition = "2021"
publish = false

[dependencies]
async-std = "=1.13.2"
async-tungstenite = { version = "=0.9.3", default-features = false }
dashmap = "=3.11.10"
futures-util = { version = "=0.3.34", features = ["sink"] }
js-sys = "=0.3.107"
log = "=0.4.35"
rand = { version = "=0.7.3", features = ["wasm-bindgen"] }
serde = { version = "=1.0.229", features = ["derive"] }
serde_json = "=1.0.154"
thiserror = "=1.0.69"
tungstenite = { version = "=0.11.1", default-features = false }
wasm-bindgen = "=0.2.130"
web-sys = { version = "=0.3.107", features = ["CustomEvent", "Document", "Event", "EventListener", "EventTarget", "MessageEvent", "WebSocket", "Window"] }
web-view = "=0.7.3"
