[package]
name = "mock_server"
version = "0.1.0"
edition = "2021"
publish = false

[dependencies]
humantime = "*"
actix-web = "*"
clap = { version = "*", features = ["derive"] }
log = "*"
simplelog = "*"
tokio = { version = "*", features = ["time"] }
