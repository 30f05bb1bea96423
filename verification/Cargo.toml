[package]
name = "net_serial_console"
version = "0.1.0"
edition = "2021"
publish = false

[dependencies]
anyhow = "1"
axum = "0.8"
bytes = "1"
clap = { version = "4", features = ["derive"] }
tokio = { version = "1", features = ["rt-multi-thread", "net", "io-util", "sync", "time", "macros"] }
tokio-serial = "5"
tokio-util = { version = "0.7", features = ["codec"] }
tracing-subscriber = "0.3"
