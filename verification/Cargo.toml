[package]
name = "hypercan"
version = "0.1.0"
edition = "2021"
publish = false

[dependencies]
tokio = { version = "*", features = ["full"] }
clap = { version = "3.2", features = ["derive"] }
socketcan = "1.7"
socketcan-isotp = "*"
embedded-can = "*"
duration-str = "*"
async-trait = "*"
tracing = "*"
tracing-subscriber = "*"
