[package]
name = "code_engine"
version = "0.1.0"
edition = "2021"
publish = false

[dependencies]
tokio = { version = "*", features = ["full"] }
axum = "*"
lapin = "*"
mongodb = "*"
serde = { version = "*", features = ["derive"] }
serde_json = "*"
futures-util = "*"
async-trait = "*"
uuid = { version = "*", features = ["v4", "serde"] }
