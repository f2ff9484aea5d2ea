[package]
name = "ascot"
version = "0.1.0"
edition = "2021"
publish = false

[dependencies]
heapless = "0.8"
serde = { version = "1", features = ["derive"] }
serde_json = "1"
thiserror = "1"
tokio = { version = "1", features = ["macros", "rt-multi-thread", "net"] }
axum = "0.7"
tracing = "0.1"
tracing-subscriber = "0.3"
mdns-sd = "*"
gethostname = "*"
if-addrs = "*"
reqwest = { version = "0.12", default-features = false, features = ["json"] }
