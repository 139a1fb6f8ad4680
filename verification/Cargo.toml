[package]
name = "rer_status"
version = "0.1.0"
edition = "2021"
publish = false

[dependencies]
chrono = "0.4"
hyper = { version = "0.14", features = ["client", "http1", "http2", "runtime"] }
hyper-tls = "0.5"
log = "0.4"
serde = { version = "1", features = ["derive"] }
serde_json = "1"
serenity = "0.11"
url_params_serializer = "*"
