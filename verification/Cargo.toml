[package]
name = "pigeon"
version = "0.1.0"
edition = "2021"
publish = false

[dependencies]
async-trait = "0.1"
mime = "=0.3.17"
reqwest = { version = "=0.11.27", default-features = false, features = ["json", "multipart"] }
serde = { version = "1", features = ["derive"] }
serde_json = "=1.0.154"
snafu = "0.7"
tokio = { version = "1", features = ["macros", "rt-multi-thread", "time"] }
tracing = "0.1"
tracing-subscriber = "0.3"
ts-rs = { version = "10", features = ["serde-json-impl"] }
