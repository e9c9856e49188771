[package]
name = "salvo_conn"
version = "0.1.0"
edition = "2021"
publish = false

[dependencies]
async-trait = "0.1"
futures-util = "0.3"
http = "1"
tokio = { version = "1", features = ["io-util", "net", "rt"] }
