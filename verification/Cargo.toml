[package]
name = "embedded-web-ui"
version = "0.1.0"
edition = "2021"
publish = false

[dependencies]
heapless = { version = "=0.7.17", features = ["serde"] }
bytes = "=1.12.1"
im-rc = "=15.1.0"
wyhash = "=0.5.0"
rand_core = "=0.6.4"
serde = { version = "=1.0.229", features = ["derive"] }
serde_json = "=1.0.154"
postcard = { version = "=1.1.3", features = ["use-std"] }
tokio = { version = "=1.54.1", features = ["full"] }
tokio-util = { version = "=0.7.20", features = ["codec"] }
tokio-stream = { version = "=0.1.19", features = ["sync"] }
tokio-serial = { version = "=5.5.0", default-features = false }
futures = "=0.3.34"
axum = { version = "=0.6.20", features = ["ws", "headers"] }
tower-http = { version = "=0.4.4", features = ["cors", "trace"] }
tracing = "=0.1.44"
tracing-subscriber = "=0.3.23"
eyre = "=0.6.14"
color-eyre = "=0.6.5"
listenfd = "=1.0.2"
pretty-hex = "=0.3.0"
log = "=0.4.35"
defmt-decoder = { version = "=0.3.11", features = ["unstable"] }
ouroboros = "=0.15.6"
anyhow = "=1.0.104"
tokio-tungstenite = "=0.20.1"
object = { version = "=0.35.0", default-features = false, features = ["read_core", "elf", "std"] }
