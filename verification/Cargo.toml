[package]
name = "kyoka"
version = "0.1.0"
edition = "2021"
publish = false

[dependencies]
url = "2"
tokio = { version = "1", features = ["rt", "rt-multi-thread", "macros", "sync", "time", "signal"] }
reqwest = { version = "0.11", default-features = false, features = ["rustls-tls"] }
actix-web = { version = "4", default-features = false, features = ["macros"] }
twilight-gateway = "0.15"
twilight-gateway-queue = "0.15"
twilight-http = "0.15"
twilight-model = "0.15"
dotenvy = "0.15"
tracing = "0.1"
tracing-subscriber = "0.3"
error-stack = "0.4"
thiserror = "1"
serde = { version = "1", features = ["derive"] }
