[package]
name = "video_explorer"
version = "0.1.0"
edition = "2021"
publish = false

[dependencies]
gloo-net = "0.2"
serde = { version = "1", features = ["derive"] }
wasm-bindgen-futures = "0.4"
yew = "0.19"
