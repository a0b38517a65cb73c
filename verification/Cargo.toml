[package]
name = "http_serve"
version = "0.1.0"
edition = "2021"
publish = false

[dependencies]
urlencoding = "*"
anyhow = "*"
axum = "*"
axum-macros = "*"
clap = { version = "*", features = ["derive"] }
tokio = { version = "*", features = ["rt-multi-thread", "macros", "net", "fs"] }
tracing = "*"
tracing-subscriber = "*"
