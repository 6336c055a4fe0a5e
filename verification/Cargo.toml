[package]
name = "issue_export"
version = "0.1.0"
edition = "2021"
publish = false

[dependencies]
anyhow = "1"
argh = "0.1"
dotenv = "0.15"
futures = "0.3"
handlebars = "4"
headers = "0.3"
hyper = { version = "0.14", features = ["client", "http1", "http2", "tcp", "runtime"] }
hyper-tls = "0.5"
serde = { version = "1", features = ["derive"] }
serde_json = "1"
slug = "0.1"
tokio = { version = "1", features = ["macros", "rt-multi-thread"] }
tracing = "0.1"
tracing-subscriber = { version = "0.3", features = ["env-filter"] }
