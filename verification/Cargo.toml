[package]
name = "solus_rust_lib"
version = "0.1.0"
edition = "2021"
publish = false

[dependencies]
anyhow = "=1.0.104"
async-trait = "0.1"
dotenv = "=0.15.0"
futures = "0.3"
prost = "=0.13.5"
rand = "0.8"
reqwest = { version = "=0.12.28", default-features = false, features = ["json", "rustls-tls"] }
reqwest-eventsource = "=0.6.0"
rusqlite = { version = "=0.32.1", features = ["bundled"] }
serde = { version = "=1.0.229", features = ["derive"] }
serde_json = "=1.0.154"
tokio = { version = "=1.54.1", features = ["rt-multi-thread", "macros", "sync", "time"] }
tokio-stream = "=0.1.19"
twilight-cache-inmemory = "0.14"
twilight-gateway = "0.14"
twilight-http = "0.14"
twilight-interactions = "0.14"
twilight-model = "0.14"
twilight-util = { version = "0.14", features = ["builder"] }
uuid = { version = "=1.29.0", features = ["v4"] }
