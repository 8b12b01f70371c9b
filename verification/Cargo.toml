[package]
name = "chat_server"
version = "0.1.0"
edition = "2021"
publish = false

[dependencies]
tokio = { version = "1", features = ["sync", "rt-multi-thread", "macros", "signal", "time"] }
uuid = { version = "1", features = ["v4"] }
tonic = "0.12"
futures = "0.3"
structopt = "0.3"
