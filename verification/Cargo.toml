[package]
name = "progress_sync"
version = "0.1.0"
edition = "2021"
publish = false

[dependencies]
http = "1"
serde = { version = "1", features = ["derive"] }
serde_json = "1"
time = { version = "0.3", features = ["wasm-bindgen"] }
tracing-subscriber = { version = "0.3", features = ["json", "time"] }
tracing-web = "0.1"
worker = "*"
