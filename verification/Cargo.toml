[package]
name = "proxy_chain"
version = "0.1.0"
edition = "2021"
publish = false

[dependencies]
anyhow = "=1.0.104"
axum = "=0.8.9"
clap = { version = "=4.6.7", features = ["derive"] }
futures = "=0.3.34"
http = "=1.5.0"
hudsucker = "=0.23.0"
hyper-util = { version = "=0.1.21", features = ["client-legacy", "http1", "tokio"] }
log = "=0.4.34"
rustls = { version = "=0.23.46", features = ["ring"] }
tokio = { version = "=1.54.1", features = ["full"] }
