[package]
name = "cosurf"
version = "0.1.0"
edition = "2021"
publish = false

[dependencies]
serde = { version = "1", features = ["derive"] }
serde_json = "1"
serde_yaml = "0.9"
sha2 = "0.10"
url = "2"
regex = "1"
base64 = "0.22"
chrono = "0.4"
uuid = { version = "1", features = ["v4"] }
thiserror = "1"
tracing = "0.1"
rusqlite = { version = "0.31", features = ["bundled"] }
tokio = { version = "1", features = ["rt-multi-thread", "macros", "process", "time", "sync", "io-util"] }
futures = "0.3"
reqwest = { version = "0.12", default-features = false, features = ["json", "stream"] }
reqwest-eventsource = "0.6"
tokio-util = { version = "0.7", features = ["io"] }
dirs = "5"
lazy_static = "1"
once_cell = "1"
async-trait = "0.1"
