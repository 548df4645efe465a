[package]
name = "proxymore"
version = "0.1.0"
edition = "2021"
publish = false

[dependencies]
anyhow = "1"
base64 = "0.22"
bytes = "1"
clap = { version = "4", features = ["derive"] }
dirs = "6"
futures-util = "0.3"
glob-match = "0.2"
http = "1"
http-body-util = "0.1"
hyper = { version = "1", features = ["full"] }
hyper-tungstenite = "0.19"
hyper-util = { version = "0.1", features = ["server-auto", "service", "tokio", "http1", "http2"] }
indexmap = "2"
log = "0.4"
pin-project-lite = "0.2"
serde = { version = "1", features = ["derive"] }
serde_json = "1"
simplelog = "0.12"
time = { version = "0.3", features = ["formatting", "macros"] }
tokio = { version = "1", features = ["full"] }
tokio-graceful = "0.2"
tokio-rustls = { version = "0.26", default-features = false, features = ["ring", "tls12"] }
tokio-stream = { version = "0.1", features = ["sync"] }
tokio-tungstenite = "0.28"
wreq = { version = "6.0.0-rc", features = ["stream", "ws"] }
wreq-util = "3.0.0-rc"
