[package]
name = "lamprey"
version = "0.2.0"
edition = "2021"
publish = false

[dependencies]
async-tungstenite = { version = "*", features = ["tokio-runtime"] }
chrono = "0.4"
clap = { version = "4", features = ["derive"] }
colored = "2"
futures = "0.3"
log = "0.4"
serde_json = "1"
tokio = { version = "1", features = ["macros", "rt-multi-thread", "sync"] }
tokio-stream = "0.1"
tracing = "0.1"
tracing-subscriber = "0.3"
url = "2"
warp = "0.3"
