[package]
name = "changyan"
version = "0.1.0"
edition = "2021"
publish = false

[dependencies]
url = "2"
serde = { version = "1", features = ["derive"] }
serde_json = "1"
reqwest = { version = "*", default-features = false, features = ["json", "multipart"] }
tokio = { version = "1", features = ["rt-multi-thread", "macros", "time", "sync", "fs", "io-util"] }
futures-util = "0.3"
chrono = "0.4"
tar = "*"
bzip2 = "*"
anyhow = "1"
tracing = "0.1"
