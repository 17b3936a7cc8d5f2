[package]
name = "llm_status"
version = "0.1.0"
edition = "2021"
publish = false

[dependencies]
chrono = "*"
serde = { version = "*", features = ["derive"] }
serde_json = "*"
reqwest = { version = "*", default-features = false, features = ["rustls-tls", "gzip", "json"] }
thirtyfour = "*"
tokio = { version = "*", features = ["macros", "rt-multi-thread", "time", "net"] }
axum = "*"
tower-http = { version = "*", features = ["fs", "cors"] }
tracing = "*"
tracing-subscriber = "*"
