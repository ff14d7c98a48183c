[package]
name = "chat_worker"
version = "0.1.0"
edition = "2021"
publish = false

[dependencies]
serde = { version = "*", features = ["derive"] }
serde_json = "*"
tokio = { version = "*", features = ["rt-multi-thread", "time", "macros"] }
twilight-http = "*"
twilight-model = "*"
twilight-util = { version = "*", features = ["snowflake"] }
