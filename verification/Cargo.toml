[package]
name = "ruma"
version = "0.1.0"
edition = "2021"
publish = false

[dependencies]
iron = "=0.6.1"
bodyparser = "=0.8.0"
serde = { version = "=1.0.229", features = ["derive"] }
serde_json = "=1.0.154"
