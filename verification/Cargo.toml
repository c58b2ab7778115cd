[package]
name = "http_trigger"
version = "0.1.0"
edition = "2021"
publish = false

[dependencies]
dotenvy = "0.15"
hyper = { version = "0.14", features = ["http1", "server", "tcp"] }
tokio = { version = "1", features = ["macros", "rt-multi-thread"] }
