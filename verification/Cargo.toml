[package]
name = "snowplow_tracker"
version = "0.1.0"
edition = "2021"
publish = false

[dependencies]
futures = "0.3"
itoa = "1"
reqwest = { version = "0.11", default-features = false, features = ["stream"] }
serde = { version = "1", features = ["derive"] }
serde_json = "1"
thiserror = "1"
tokio = { version = "1", features = ["macros", "rt-multi-thread"] }
url = "2"
uuid = { version = "1", features = ["v4"] }
