[package]
name = "gas_monitor"
version = "0.1.0"
edition = "2021"
publish = false

[dependencies]
mongodb = "*"
bson = "*"
tokio = { version = "*", features = ["rt-multi-thread"] }
futures = "*"
serde = { version = "*", features = ["derive"] }
chrono = "*"
dotenv = "*"
