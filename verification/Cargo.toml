[package]
name = "angel"
version = "0.1.0"
edition = "2021"
publish = false

[dependencies]
aho-corasick = "=1.1.5"
anyhow = "=1.0.104"
base64 = "=0.23.1"
bytes = "=1.12.1"
dashmap = "=6.2.1"
ffmpeg-next = "=9.0.0"
futures-util = "=0.3.34"
hyphenation = { version = "=0.8.4", features = ["embed_en-us"] }
image = { version = "=0.25.10", default-features = false, features = ["png", "jpeg", "gif", "webp", "bmp"] }
image-compare = "=0.5.0"
indexmap = "=2.14.2"
linkify = "=0.11.0"
mime = "=0.3.17"
ollama-rs = "=0.3.6"
reqwest = { version = "=0.12.28", default-features = false, features = ["stream", "json", "rustls-tls"] }
serde = { version = "=1.0.229", features = ["derive"] }
serde_json = "=1.0.154"
textwrap = { version = "=0.16.4", features = ["hyphenation"] }
tokio = { version = "=1.54.1", features = ["rt-multi-thread", "macros", "sync"] }
tokio-stream = "=0.1.19"
tokio-util = { version = "=0.7.20", features = ["io", "io-util"] }
tracing = "=0.1.44"
url = "=2.5.8"
