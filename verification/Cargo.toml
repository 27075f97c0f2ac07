[package]
name = "timer_api"
version = "0.1.0"
edition = "2021"
publish = false

[dependencies]
actix-web = { version = "=4.18.1", default-features = false, features = ["macros"] }
actix-ws = "=0.3.1"
anyhow = "=1.0.104"
async-trait = "=0.1.92"
futures-util = "=0.3.34"
serde = { version = "=1.0.229", features = ["derive"] }
serde_json = "=1.0.154"
tokio = { version = "=1.54.1", features = ["full"] }
tokio-stream = "=0.1.19"
tracing = "=0.1.44"
tracing-subscriber = "=0.3.23"
uuid = { version = "=1.29.0", features = ["v4", "serde"] }

[dev-dependencies]
tokio = { version = "=1.54.1", features = ["full", "test-util"] }
serde_json = "=1.0.154"
