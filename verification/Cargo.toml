[package]
name = "fib_api"
version = "0.1.0"
edition = "2021"
publish = false

[dependencies]
axum = "*"
axum-server = { version = "*", features = ["tls-rustls"] }
log = "*"
serde = { version = "*", features = ["derive"] }
simple_logger = "*"
tokio = { version = "*", features = ["macros", "rt-multi-thread"] }
