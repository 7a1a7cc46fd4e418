[package]
name = "enigma_server"
version = "0.1.0"
edition = "2021"
publish = false

[dependencies]
actix-web = "4"
bson = "2"
chrono = "0.4"
futures-util = "0.3"
jsonwebtoken = "8"
mongodb = "2"
serde = { version = "1", features = ["derive"] }
serde_json = "1"
tokio = { version = "1", features = ["rt"] }
