[package]
name = "lock_4_me"
version = "0.1.0"
edition = "2021"
publish = false

[dependencies]
uuid = "*"
btleplug = "*"
tokio = { version = "*", features = ["rt-multi-thread", "time", "macros", "sync"] }
futures = "*"
async-stream = "*"
serde = { version = "*", features = ["derive"] }
serde_json = "*"
log = "*"
