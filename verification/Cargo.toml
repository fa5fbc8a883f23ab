[package]
name = "arch_service"
version = "0.1.0"
edition = "2021"
publish = false

[dependencies]
url = "2"
mysql_async = "*"
hyper = { version = "0.14", features = ["server", "http1", "tcp"] }
tokio = { version = "1", features = ["rt", "macros", "net"] }

[dev-dependencies]
serde_json = "1"
