[package]
name = "platter"
version = "0.1.0"
edition = "2021"
publish = false

[dependencies]
base64 = "0.13"
futures = "0.3"
js-sys = "0.3"
serde = "1"
serde_json = "1"
wasm-bindgen = "0.2"
web-sys = { version = "0.3", features = ["Storage", "Window", "XmlHttpRequest", "XmlHttpRequestResponseType"] }
